//! Prompts about the key of an SSH host.
use vstd::prelude::*;

use crate::effects::HostKeyTrustDecision;
use crate::state::HostKeyPrompt;
use crate::text::{is_white_space, push_decimal};
#[allow(unused_imports)]
use crate::text::{decimal, decimal_reads_back, holds_text, white_space};

verus! {

/// A host and its port as they are written together: an address with colons of
/// its own goes in brackets.
pub open spec fn host_port_text(host: Seq<char>, port: nat) -> Seq<char> {
    if host.contains(':') {
        "["@ + host + "]:"@ + decimal(port)
    } else {
        host + ":"@ + decimal(port)
    }
}

fn has_colon(host: &str) -> (result: bool)
    ensures
        result == host@.contains(':'),
{
    let mut found = false;
    for c in iter: host.chars()
        invariant
            iter.seq() == host@,
            found == host@.take(iter.index() as int).contains(':'),
    {
        proof {
            let i = iter.index() as int;
            let longer = host@.take(i + 1);
            assert(longer =~= host@.take(i).push(c));
            assert(longer[i] == c);
            if host@.take(i).contains(':') {
                let k = choose|k: int| 0 <= k < i && host@.take(i)[k] == ':';
                assert(longer[k] == ':');
            }
            if longer.contains(':') && c != ':' {
                let k = choose|k: int| 0 <= k < i + 1 && longer[k] == ':';
                assert(host@.take(i)[k] == ':');
            }
        }
        if c == ':' {
            found = true;
        }
    }
    assert(host@.take(host@.len() as int) =~= host@);
    found
}

pub fn canonical_host_port(host: &str, port: u16) -> (text: String)
    ensures
        text@ == host_port_text(host@, port as nat),
{
    let mut text = String::new();
    if has_colon(host) {
        text.append("[");
        text.append(host);
        text.append("]:");
    } else {
        text.append(host);
        text.append(":");
    }
    push_decimal(&mut text, port as u128);
    assert(text@ =~= host_port_text(host@, port as nat));
    text
}

/// The lines of the prompt about a host that has not been seen before.
pub open spec fn first_seen_lines(prompt: HostKeyPrompt) -> Seq<Seq<char>> {
    seq![
        "The authenticity of host '"@ + host_port_text(prompt.host@, prompt.port as nat)
            + "' can't be established."@,
        "ED25519 key fingerprint is "@ + prompt.fingerprint@ + "."@,
        "Are you sure you want to continue connecting (yes/no)? [y/N] "@,
        "Press 'a' to accept and remember this host for future connections."@,
    ]
}

/// The lines of the prompt about a host whose key has changed.
pub open spec fn changed_lines(prompt: HostKeyPrompt) -> Seq<Seq<char>> {
    let rule = "@@@@@@@@@@@@@@@@@@@@@@@@@@@@@@@@@@@@@@@@@@@@@@@@@@@@@@@@@@@"@;
    let previous = match prompt.previously_trusted {
        Some(fingerprint) => fingerprint@,
        None => Seq::empty(),
    };
    seq![
        rule,
        "@ WARNING: REMOTE HOST IDENTIFICATION HAS CHANGED! @"@,
        rule,
        "The key previously trusted for '"@ + host_port_text(prompt.host@, prompt.port as nat)
            + "' was "@ + previous + "."@,
        "The server now presents a different key: "@ + prompt.fingerprint@ + "."@,
        "This could mean someone is intercepting this connection, or the host's key was legitimately changed."@,
        "Type 'yes' and press Enter to replace the trusted key and continue, or press Escape to cancel."@,
    ]
}

/// Texts as they read.
pub open spec fn lines_read(lines: Seq<String>) -> Seq<Seq<char>> {
    lines.map_values(|line: String| line@)
}

fn push_line(lines: &mut Vec<String>, line: String)
    ensures
        lines_read(final(lines)@) == lines_read(old(lines)@).push(line@),
{
    lines.push(line);
    assert(lines_read(lines@) =~= lines_read(old(lines)@).push(line@));
}

impl HostKeyPrompt {
    /// The host was trusted with another key before.
    pub open spec fn key_changed(self) -> bool {
        self.previously_trusted is Some
    }

    pub fn is_key_change(&self) -> (result: bool)
        ensures
            result == self.key_changed(),
    {
        self.previously_trusted.is_some()
    }

    /// The lines of the prompt: a changed key gets a warning of its own.
    pub fn lines(&self) -> (lines: Vec<String>)
        ensures
            lines_read(lines@) == if self.key_changed() {
                changed_lines(*self)
            } else {
                first_seen_lines(*self)
            },
    {
        let host_port = canonical_host_port(self.host.as_str(), self.port);
        let mut lines: Vec<String> = Vec::new();
        assert(lines_read(lines@) =~= Seq::empty());
        match &self.previously_trusted {
            None => {
                let mut first = "The authenticity of host '".to_owned();
                first.append(host_port.as_str());
                first.append("' can't be established.");
                push_line(&mut lines, first);
                let mut second = "ED25519 key fingerprint is ".to_owned();
                second.append(self.fingerprint.as_str());
                second.append(".");
                push_line(&mut lines, second);
                push_line(
                    &mut lines,
                    "Are you sure you want to continue connecting (yes/no)? [y/N] ".to_owned(),
                );
                push_line(
                    &mut lines,
                    "Press 'a' to accept and remember this host for future connections.".to_owned(),
                );
                assert(lines_read(lines@) =~= first_seen_lines(*self));
            },
            Some(previous) => {
                push_line(
                    &mut lines,
                    "@@@@@@@@@@@@@@@@@@@@@@@@@@@@@@@@@@@@@@@@@@@@@@@@@@@@@@@@@@@".to_owned(),
                );
                push_line(
                    &mut lines,
                    "@ WARNING: REMOTE HOST IDENTIFICATION HAS CHANGED! @".to_owned(),
                );
                push_line(
                    &mut lines,
                    "@@@@@@@@@@@@@@@@@@@@@@@@@@@@@@@@@@@@@@@@@@@@@@@@@@@@@@@@@@@".to_owned(),
                );
                let mut trusted = "The key previously trusted for '".to_owned();
                trusted.append(host_port.as_str());
                trusted.append("' was ");
                trusted.append(previous.as_str());
                trusted.append(".");
                push_line(&mut lines, trusted);
                let mut presented = "The server now presents a different key: ".to_owned();
                presented.append(self.fingerprint.as_str());
                presented.append(".");
                push_line(&mut lines, presented);
                push_line(
                    &mut lines,
                    "This could mean someone is intercepting this connection, or the host's key was legitimately changed.".to_owned(),
                );
                push_line(
                    &mut lines,
                    "Type 'yes' and press Enter to replace the trusted key and continue, or press Escape to cancel.".to_owned(),
                );
                assert(lines_read(lines@) =~= changed_lines(*self));
            },
        }
        lines
    }
}

/// The keys that the prompt about a new host listens to.
#[derive(Clone, Copy, Debug, PartialEq, Eq, Structural)]
pub struct PromptKeys {
    pub y: bool,
    pub a: bool,
    pub n: bool,
    pub escape: bool,
}

/// The decision about a new host that the keys of one frame stand for. Of
/// several keys the first in the order of `PromptKeys` counts.
pub fn first_seen_decision(keys: PromptKeys) -> (decision: Option<HostKeyTrustDecision>)
    ensures
        decision == if keys.y {
            Some(HostKeyTrustDecision::AcceptOnce)
        } else if keys.a {
            Some(HostKeyTrustDecision::AcceptAndPersist)
        } else if keys.n || keys.escape {
            Some(HostKeyTrustDecision::Reject)
        } else {
            None
        },
{
    if keys.y {
        Some(HostKeyTrustDecision::AcceptOnce)
    } else if keys.a {
        Some(HostKeyTrustDecision::AcceptAndPersist)
    } else if keys.n || keys.escape {
        Some(HostKeyTrustDecision::Reject)
    } else {
        None
    }
}

/// An event that the prompt about a changed key takes.
#[derive(Debug)]
pub enum PromptEvent {
    Text(String),
    Backspace,
    Enter,
    Escape,
}

/// What has been typed into the prompt about a changed key.
#[derive(Debug)]
pub struct ChangedKeyPrompt {
    pub typed: Vec<char>,
}

/// What stands in the prompt after one more event.
pub open spec fn typed_after(typed: Seq<char>, event: PromptEvent) -> Seq<char> {
    match event {
        PromptEvent::Text(text) => typed + text@,
        PromptEvent::Backspace => if typed.len() > 0 {
            typed.drop_last()
        } else {
            typed
        },
        _ => typed,
    }
}

/// What stands in the prompt after the first `n` events.
pub open spec fn typed_after_all(typed: Seq<char>, events: Seq<PromptEvent>, n: int) -> Seq<char>
    decreases n,
{
    if n <= 0 {
        typed
    } else {
        typed_after(typed_after_all(typed, events, n - 1), events[n - 1])
    }
}

pub open spec fn has_enter(events: Seq<PromptEvent>, n: int) -> bool {
    exists|i: int| 0 <= i < n && #[trigger] events[i] is Enter
}

pub open spec fn has_escape(events: Seq<PromptEvent>, n: int) -> bool {
    exists|i: int| 0 <= i < n && #[trigger] events[i] is Escape
}

/// `s` without the white space at its start.
pub open spec fn trimmed_start(s: Seq<char>) -> Seq<char>
    decreases s.len(),
{
    if s.len() > 0 && white_space(s[0]) {
        trimmed_start(s.skip(1))
    } else {
        s
    }
}

/// `s` without the white space at its end.
pub open spec fn trimmed_end(s: Seq<char>) -> Seq<char>
    decreases s.len(),
{
    if s.len() > 0 && white_space(s.last()) {
        trimmed_end(s.drop_last())
    } else {
        s
    }
}

/// Consent is the literal word, with nothing but white space around it.
pub open spec fn consents(typed: Seq<char>) -> bool {
    trimmed_end(trimmed_start(typed)) == seq!['y', 'e', 's']
}

impl ChangedKeyPrompt {
    pub fn new() -> (prompt: Self)
        ensures
            prompt.typed@.len() == 0,
    {
        ChangedKeyPrompt { typed: Vec::new() }
    }

    fn is_consent(&self) -> (result: bool)
        ensures
            result == consents(self.typed@),
    {
        let mut start: usize = 0;
        assert(self.typed@.skip(0) =~= self.typed@);
        while start < self.typed.len() && is_white_space(self.typed[start])
            invariant
                start <= self.typed@.len(),
                trimmed_start(self.typed@) == trimmed_start(self.typed@.skip(start as int)),
            ensures
                start < self.typed@.len() ==> !white_space(self.typed@[start as int]),
            decreases self.typed@.len() - start,
        {
            assert(self.typed@.skip(start as int).skip(1) =~= self.typed@.skip(start + 1));
            start = start + 1;
        }
        let ghost rest = self.typed@.skip(start as int);
        assert(trimmed_start(self.typed@) == rest);
        let mut end: usize = self.typed.len();
        assert(self.typed@.subrange(start as int, end as int) =~= rest);
        while end > start && is_white_space(self.typed[end - 1])
            invariant
                start <= end <= self.typed@.len(),
                trimmed_end(rest) == trimmed_end(self.typed@.subrange(start as int, end as int)),
            ensures
                end > start ==> !white_space(self.typed@[end - 1]),
            decreases end - start,
        {
            assert(self.typed@.subrange(start as int, end as int).drop_last()
                =~= self.typed@.subrange(start as int, end - 1));
            end = end - 1;
        }
        let ghost word = self.typed@.subrange(start as int, end as int);
        assert(trimmed_end(rest) == word);
        let result = end - start == 3 && self.typed[start] == 'y' && self.typed[start + 1] == 'e'
            && self.typed[start + 2] == 's';
        assert(result == (word == seq!['y', 'e', 's'])) by {
            if result {
                assert(word =~= seq!['y', 'e', 's']);
            }
            if word == seq!['y', 'e', 's'] {
                assert(word[0] == 'y' && word[1] == 'e' && word[2] == 's');
            }
        }
        result
    }

    /// Takes in the events of one frame. Escape cancels whatever else was
    /// typed; Enter accepts the new key only where consent stands in the prompt,
    /// and rejects it otherwise. A decision empties the prompt.
    pub fn take_events(&mut self, events: &Vec<PromptEvent>) -> (decision: Option<
        HostKeyTrustDecision,
    >)
        ensures
            ({
                let n = events@.len() as int;
                let typed = typed_after_all(old(self).typed@, events@, n);
                &&& decision == if has_escape(events@, n) {
                    Some(HostKeyTrustDecision::Reject)
                } else if has_enter(events@, n) {
                    Some(
                        if consents(typed) {
                            HostKeyTrustDecision::AcceptAndPersist
                        } else {
                            HostKeyTrustDecision::Reject
                        },
                    )
                } else {
                    None
                }
                &&& final(self).typed@ == if decision is Some {
                    Seq::empty()
                } else {
                    typed
                }
            }),
    {
        let mut submitted = false;
        let mut cancelled = false;
        let mut i: usize = 0;
        while i < events.len()
            invariant
                i <= events@.len(),
                self.typed@ == typed_after_all(old(self).typed@, events@, i as int),
                submitted == has_enter(events@, i as int),
                cancelled == has_escape(events@, i as int),
            decreases events@.len() - i,
        {
            match &events[i] {
                PromptEvent::Text(text) => {
                    let ghost before = self.typed@;
                    for c in iter: text.as_str().chars()
                        invariant
                            iter.seq() == text@,
                            self.typed@ == before + text@.take(iter.index() as int),
                    {
                        self.typed.push(c);
                        assert(self.typed@ =~= before + text@.take(iter.index() as int + 1));
                    }
                    assert(text@.take(text@.len() as int) =~= text@);
                },
                PromptEvent::Backspace => {
                    let _last = self.typed.pop();
                },
                PromptEvent::Enter => {
                    assert(events@[i as int] is Enter);
                    submitted = true;
                },
                PromptEvent::Escape => {
                    assert(events@[i as int] is Escape);
                    cancelled = true;
                },
            }
            i = i + 1;
        }
        let decision = if cancelled {
            Some(HostKeyTrustDecision::Reject)
        } else if submitted {
            Some(
                if self.is_consent() {
                    HostKeyTrustDecision::AcceptAndPersist
                } else {
                    HostKeyTrustDecision::Reject
                },
            )
        } else {
            None
        };
        if decision.is_some() {
            self.typed = Vec::new();
            assert(self.typed@ =~= Seq::empty());
        }
        decision
    }
}

/// A changed key is never accepted for one connection only, and never without
/// the literal word: without an Enter in the frame, or with anything but the
/// word in the prompt, or with an Escape, it is not accepted.
pub proof fn changed_keys_need_the_word(typed: Seq<char>)
    requires
        consents(typed),
    ensures
        typed.len() >= 3,
        exists|i: int|
            0 <= i && i + 3 <= typed.len() && #[trigger] typed.subrange(i, i + 3) == seq![
                'y',
                'e',
                's',
            ],
{
    let start = trimmed_start(typed);
    trimmed_start_is_suffix(typed);
    let i = typed.len() - start.len();
    trimmed_end_is_prefix(start);
    let word = trimmed_end(start);
    assert(start.take(3) == word);
    assert(typed.subrange(i, i + 3) =~= start.take(3));
}

proof fn trimmed_start_is_suffix(s: Seq<char>)
    ensures
        trimmed_start(s).len() <= s.len(),
        trimmed_start(s) == s.skip(s.len() - trimmed_start(s).len()),
    decreases s.len(),
{
    if s.len() > 0 && white_space(s[0]) {
        trimmed_start_is_suffix(s.skip(1));
        let t = trimmed_start(s);
        assert(t =~= s.skip(s.len() - t.len()));
    } else {
        assert(s.skip(0) =~= s);
    }
}

proof fn trimmed_end_is_prefix(s: Seq<char>)
    ensures
        trimmed_end(s).len() <= s.len(),
        trimmed_end(s) == s.take(trimmed_end(s).len() as int),
    decreases s.len(),
{
    if s.len() > 0 && white_space(s.last()) {
        trimmed_end_is_prefix(s.drop_last());
        let t = trimmed_end(s);
        assert(t =~= s.take(t.len() as int));
    } else {
        assert(s.take(s.len() as int) =~= s);
    }
}

proof fn no_colon_in_decimal(n: nat)
    ensures
        !decimal(n).contains(':'),
        decimal(n).len() > 0,
{
    decimal_reads_back(n);
    assert forall|i: int| 0 <= i < decimal(n).len() implies decimal(n)[i] != ':' by {
        assert('0' <= decimal(n)[i] <= '9');
    }
}

proof fn split_at_last_colon(a: Seq<char>, m: nat, b: Seq<char>, n: nat)
    requires
        a + seq![':'] + decimal(m) == b + seq![':'] + decimal(n),
    ensures
        a == b,
        m == n,
{
    no_colon_in_decimal(m);
    no_colon_in_decimal(n);
    let s = a + seq![':'] + decimal(m);
    let t = b + seq![':'] + decimal(n);
    assert((a + seq![':']).len() == a.len() + 1);
    assert((b + seq![':']).len() == b.len() + 1);
    assert(s.len() == a.len() + 1 + decimal(m).len());
    assert(t.len() == b.len() + 1 + decimal(n).len());
    assert(s[a.len() as int] == ':');
    assert(t[b.len() as int] == ':');
    if a.len() < b.len() {
        let i = b.len() - a.len() - 1;
        assert(0 <= i < decimal(m).len());
        assert(s[a.len() + 1 + i] == decimal(m)[i]);
        assert(decimal(m).contains(':'));
    } else if b.len() < a.len() {
        let i = a.len() - b.len() - 1;
        assert(0 <= i < decimal(n).len());
        assert(t[b.len() + 1 + i] == decimal(n)[i]);
        assert(decimal(n).contains(':'));
    }
    assert(a =~= s.take(a.len() as int));
    assert(b =~= t.take(b.len() as int));
    assert(decimal(m) =~= s.skip(a.len() as int + 1));
    assert(decimal(n) =~= t.skip(b.len() as int + 1));
    decimal_reads_back(m);
    decimal_reads_back(n);
}

/// No two hosts are written alike: what is written tells the host and its port.
pub proof fn hosts_are_written_apart(a: Seq<char>, m: nat, b: Seq<char>, n: nat)
    requires
        host_port_text(a, m) == host_port_text(b, n),
    ensures
        a == b,
        m == n,
{
    reveal_strlit("[");
    reveal_strlit("]:");
    reveal_strlit(":");
    let left = if a.contains(':') { seq!['['] + a + seq![']'] } else { a };
    let right = if b.contains(':') { seq!['['] + b + seq![']'] } else { b };
    assert(host_port_text(a, m) =~= left + seq![':'] + decimal(m));
    assert(host_port_text(b, n) =~= right + seq![':'] + decimal(n));
    split_at_last_colon(left, m, right, n);
    if a.contains(':') {
        let i = choose|i: int| 0 <= i < a.len() && a[i] == ':';
        assert(left[i + 1] == ':');
        assert(right.contains(':'));
    }
    if b.contains(':') {
        let i = choose|i: int| 0 <= i < b.len() && b[i] == ':';
        assert(right[i + 1] == ':');
        assert(left.contains(':'));
    }
    if a.contains(':') {
        assert(a =~= left.subrange(1, left.len() - 1));
        assert(b =~= right.subrange(1, right.len() - 1));
    }
}

proof fn middle_is_held(a: Seq<char>, b: Seq<char>, c: Seq<char>)
    ensures
        holds_text(a + b + c, b),
{
    let s = a + b + c;
    assert(s.subrange(a.len() as int, a.len() as int + b.len()) =~= b);
}

/// Some line of `lines` shows `part`.
pub open spec fn shows_text(lines: Seq<Seq<char>>, part: Seq<char>) -> bool {
    exists|i: int| 0 <= i < lines.len() && holds_text(#[trigger] lines[i], part)
}

/// The prompt shows what is to be decided: the host with its port and the key's
/// fingerprint, and for a changed key also the one that was trusted before.
pub proof fn prompts_show_what_is_decided(prompt: HostKeyPrompt)
    ensures
        ({
            let host = host_port_text(prompt.host@, prompt.port as nat);
            &&& shows_text(first_seen_lines(prompt), host)
            &&& shows_text(first_seen_lines(prompt), prompt.fingerprint@)
            &&& shows_text(changed_lines(prompt), host)
            &&& shows_text(changed_lines(prompt), prompt.fingerprint@)
            &&& prompt.previously_trusted is Some ==> shows_text(
                changed_lines(prompt),
                prompt.previously_trusted->Some_0@,
            )
            &&& prompt.key_changed() <==> prompt.previously_trusted is Some
        }),
{
    let host = host_port_text(prompt.host@, prompt.port as nat);
    let first = first_seen_lines(prompt);
    let changed = changed_lines(prompt);
    middle_is_held("The authenticity of host '"@, host, "' can't be established."@);
    assert(holds_text(first[0], host));
    middle_is_held("ED25519 key fingerprint is "@, prompt.fingerprint@, "."@);
    assert(holds_text(first[1], prompt.fingerprint@));
    let previous = match prompt.previously_trusted {
        Some(fingerprint) => fingerprint@,
        None => Seq::empty(),
    };
    let rest = "' was "@ + previous + "."@;
    assert(changed[3] =~= "The key previously trusted for '"@ + host + rest);
    middle_is_held("The key previously trusted for '"@, host, rest);
    assert(holds_text(changed[3], host));
    middle_is_held("The key previously trusted for '"@ + host + "' was "@, previous, "."@);
    assert(holds_text(changed[3], previous));
    middle_is_held("The server now presents a different key: "@, prompt.fingerprint@, "."@);
    assert(holds_text(changed[4], prompt.fingerprint@));
}

/// Every character of `s` is white space.
pub open spec fn blank_text(s: Seq<char>) -> bool {
    forall|i: int| 0 <= i < s.len() ==> white_space(#[trigger] s[i])
}

proof fn start_is_trimmed(a: Seq<char>, rest: Seq<char>)
    requires
        blank_text(a),
        rest.len() > 0,
        !white_space(rest[0]),
    ensures
        trimmed_start(a + rest) == rest,
    decreases a.len(),
{
    if a.len() == 0 {
        assert(a + rest =~= rest);
    } else {
        assert(white_space(a[0]));
        assert((a + rest).skip(1) =~= a.skip(1) + rest);
        assert forall|i: int| 0 <= i < a.skip(1).len() implies white_space(
            #[trigger] a.skip(1)[i],
        ) by {
            assert(white_space(a[i + 1]));
        }
        start_is_trimmed(a.skip(1), rest);
    }
}

proof fn end_is_trimmed(rest: Seq<char>, b: Seq<char>)
    requires
        blank_text(b),
        rest.len() > 0,
        !white_space(rest.last()),
    ensures
        trimmed_end(rest + b) == rest,
    decreases b.len(),
{
    if b.len() == 0 {
        assert(rest + b =~= rest);
    } else {
        assert(white_space(b[b.len() - 1]));
        assert((rest + b).drop_last() =~= rest + b.drop_last());
        assert forall|i: int| 0 <= i < b.drop_last().len() implies white_space(
            #[trigger] b.drop_last()[i],
        ) by {
            assert(white_space(b[i]));
        }
        end_is_trimmed(rest, b.drop_last());
    }
}

proof fn trimmed_start_was_blank(s: Seq<char>)
    ensures
        trimmed_start(s).len() <= s.len(),
        blank_text(s.take(s.len() - trimmed_start(s).len())),
    decreases s.len(),
{
    trimmed_start_is_suffix(s);
    if s.len() > 0 && white_space(s[0]) {
        trimmed_start_was_blank(s.skip(1));
        trimmed_start_is_suffix(s.skip(1));
        let n = s.len() - trimmed_start(s).len();
        assert forall|i: int| 0 <= i < n implies white_space(#[trigger] s.take(n)[i]) by {
            if i > 0 {
                assert(s.skip(1).take(n - 1)[i - 1] == s[i]);
            }
        }
    }
}

proof fn trimmed_end_was_blank(s: Seq<char>)
    ensures
        trimmed_end(s).len() <= s.len(),
        blank_text(s.skip(trimmed_end(s).len() as int)),
    decreases s.len(),
{
    trimmed_end_is_prefix(s);
    if s.len() > 0 && white_space(s.last()) {
        trimmed_end_was_blank(s.drop_last());
        trimmed_end_is_prefix(s.drop_last());
        let n = trimmed_end(s).len() as int;
        assert forall|i: int| 0 <= i < s.skip(n).len() implies white_space(
            #[trigger] s.skip(n)[i],
        ) by {
            if i < s.skip(n).len() - 1 {
                assert(s.drop_last().skip(n)[i] == s[n + i]);
            }
        }
    }
}

/// `typed` is the word of consent with `a` before and `b` behind it, which are
/// nothing but white space.
pub open spec fn word_within(typed: Seq<char>, a: Seq<char>, b: Seq<char>) -> bool {
    &&& blank_text(a)
    &&& blank_text(b)
    &&& typed == a + seq!['y', 'e', 's'] + b
}

/// Consent is given exactly by the word itself, with nothing but white space
/// before and behind it.
pub proof fn consent_is_the_word_and_nothing_else(typed: Seq<char>)
    ensures
        consents(typed) <==> exists|a: Seq<char>, b: Seq<char>| #[trigger] word_within(typed, a, b),
{
    let word = seq!['y', 'e', 's'];
    if consents(typed) {
        let start = trimmed_start(typed);
        trimmed_start_was_blank(typed);
        trimmed_start_is_suffix(typed);
        trimmed_end_was_blank(start);
        trimmed_end_is_prefix(start);
        let a = typed.take(typed.len() - start.len());
        let b = start.skip(3);
        assert(start =~= word + b);
        assert(typed =~= a + word + b);
        assert(word_within(typed, a, b));
    }
    if exists|a: Seq<char>, b: Seq<char>| #[trigger] word_within(typed, a, b) {
        let (a, b) = choose|a: Seq<char>, b: Seq<char>| #[trigger] word_within(typed, a, b);
        assert(a + word + b =~= a + (word + b));
        assert((word + b)[0] == 'y');
        start_is_trimmed(a, word + b);
        assert(word.last() == 's');
        end_is_trimmed(word, b);
    }
}

/// What is typed is added at the end, a backspace takes the last character back,
/// and neither Enter nor Escape changes what stands there.
pub proof fn typing_is_taken_back(typed: Seq<char>, text: String)
    ensures
        typed_after(typed, PromptEvent::Text(text)) == typed + text@,
        text@.len() == 1 ==> typed_after(
            typed_after(typed, PromptEvent::Text(text)),
            PromptEvent::Backspace,
        ) == typed,
        typed_after(Seq::empty(), PromptEvent::Backspace) == Seq::<char>::empty(),
        typed_after(typed, PromptEvent::Enter) == typed,
        typed_after(typed, PromptEvent::Escape) == typed,
        typed.len() > 0 ==> typed_after(typed, PromptEvent::Backspace) == typed.take(
            typed.len() - 1,
        ),
{
    if text@.len() == 1 {
        assert((typed + text@).drop_last() =~= typed);
    }
}

/// The events of a frame are taken one after the other, none left out.
pub proof fn events_are_taken_in_their_order(
    typed: Seq<char>,
    a: Seq<PromptEvent>,
    b: Seq<PromptEvent>,
)
    ensures
        typed_after_all(typed, a + b, (a.len() + b.len()) as int) == typed_after_all(
            typed_after_all(typed, a, a.len() as int),
            b,
            b.len() as int,
        ),
    decreases b.len(),
{
    prefix_of_events(typed, a, b, a.len() as int);
    if b.len() > 0 {
        let rest = b.drop_last();
        events_are_taken_in_their_order(typed, a, rest);
        prefix_of_events(typed, a + rest, seq![b.last()], (a + rest).len() as int);
        assert(a + b =~= a + rest + seq![b.last()]);
        let between = typed_after_all(typed, a, a.len() as int);
        prefix_of_events(between, rest, seq![b.last()], rest.len() as int);
        assert(b =~= rest + seq![b.last()]);
        assert((a + b)[(a + b).len() - 1] == b.last());
    }
}

proof fn prefix_of_events(typed: Seq<char>, a: Seq<PromptEvent>, b: Seq<PromptEvent>, n: int)
    requires
        0 <= n <= a.len(),
    ensures
        typed_after_all(typed, a + b, n) == typed_after_all(typed, a, n),
    decreases n,
{
    if n > 0 {
        prefix_of_events(typed, a, b, n - 1);
        assert((a + b)[n - 1] == a[n - 1]);
    }
}

} // verus!
