//! The find bar of a terminal.
use vstd::prelude::*;

use crate::text::push_decimal;
#[allow(unused_imports)]
use crate::text::decimal;

verus! {

/// What the find bar says about the matches: which one is shown, if there is a
/// query and it matches.
pub open spec fn find_text(has_query: bool, position: Option<usize>, count: nat) -> Seq<char> {
    if !has_query {
        Seq::empty()
    } else {
        match position {
            Some(position) => decimal(position as nat) + " of "@ + decimal(count),
            None => "No matches"@,
        }
    }
}

pub fn find_label(has_query: bool, position: Option<usize>, count: usize) -> (label: String)
    ensures
        label@ == find_text(has_query, position, count as nat),
{
    let mut label = String::new();
    if has_query {
        match position {
            Some(position) => {
                push_decimal(&mut label, position as u128);
                label.append(" of ");
                push_decimal(&mut label, count as u128);
            },
            None => label.append("No matches"),
        }
    }
    assert(label@ =~= find_text(has_query, position, count as nat));
    label
}

/// What happened in the find bar in one frame.
#[derive(Clone, Copy, Debug, PartialEq, Eq, Structural)]
pub struct FindBarInput {
    pub query_changed: bool,
    pub enter: bool,
    pub shift: bool,
    pub escape: bool,
    pub previous_clicked: bool,
    pub next_clicked: bool,
    pub close_clicked: bool,
}

/// One step of a search.
#[derive(Clone, Copy, Debug, PartialEq, Eq, Structural)]
pub enum SearchStep {
    SetQuery,
    Advance,
    Retreat,
    /// The match that is current now is brought into view.
    Reveal,
    Close,
}

pub open spec fn step_if(condition: bool, step: SearchStep) -> Seq<SearchStep> {
    if condition {
        seq![step]
    } else {
        seq![]
    }
}

/// The steps that a frame's input asks for, in their order.
pub open spec fn search_steps(input: FindBarInput) -> Seq<SearchStep> {
    let typed = input.query_changed || input.enter;
    let clicked = input.previous_clicked || input.next_clicked;
    step_if(input.query_changed, SearchStep::SetQuery) + step_if(
        input.enter,
        if input.shift {
            SearchStep::Retreat
        } else {
            SearchStep::Advance
        },
    ) + step_if(typed, SearchStep::Reveal) + step_if(input.previous_clicked, SearchStep::Retreat)
        + step_if(input.next_clicked, SearchStep::Advance) + step_if(
        typed || clicked,
        SearchStep::Reveal,
    ) + step_if(input.escape || input.close_clicked, SearchStep::Close)
}

fn push_if(steps: &mut Vec<SearchStep>, condition: bool, step: SearchStep)
    ensures
        final(steps)@ == old(steps)@ + step_if(condition, step),
{
    if condition {
        steps.push(step);
    }
    assert(steps@ =~= old(steps)@ + step_if(condition, step));
}

/// Puts the steps of a frame's input into their order: what was typed comes
/// before what was clicked, and each is followed by bringing the match into view.
pub fn find_bar_steps(input: FindBarInput) -> (steps: Vec<SearchStep>)
    ensures
        steps@ == search_steps(input),
{
    let typed = input.query_changed || input.enter;
    let clicked = input.previous_clicked || input.next_clicked;
    let mut steps: Vec<SearchStep> = Vec::new();
    push_if(&mut steps, input.query_changed, SearchStep::SetQuery);
    push_if(
        &mut steps,
        input.enter,
        if input.shift {
            SearchStep::Retreat
        } else {
            SearchStep::Advance
        },
    );
    push_if(&mut steps, typed, SearchStep::Reveal);
    push_if(&mut steps, input.previous_clicked, SearchStep::Retreat);
    push_if(&mut steps, input.next_clicked, SearchStep::Advance);
    push_if(&mut steps, typed || clicked, SearchStep::Reveal);
    push_if(&mut steps, input.escape || input.close_clicked, SearchStep::Close);
    assert(steps@ =~= search_steps(input));
    steps
}

/// The find bar says which match of how many is shown, that there is none, or
/// nothing without a query.
pub proof fn matches_are_numbered(position: usize, count: nat)
    ensures
        find_text(false, Some(position), count).len() == 0,
        find_text(false, None, count).len() == 0,
        find_text(true, None, count) == "No matches"@,
        find_text(true, Some(position), count) == decimal(position as nat) + " of "@ + decimal(
            count,
        ),
{
}

/// Whether `step` is asked for.
pub open spec fn asked(input: FindBarInput, step: SearchStep) -> bool {
    exists|i: int| 0 <= i < search_steps(input).len() && #[trigger] search_steps(input)[i] == step
}

proof fn steps_one_by_one(input: FindBarInput)
    ensures
        asked(input, SearchStep::SetQuery) <==> input.query_changed,
        asked(input, SearchStep::Advance) <==> (input.enter && !input.shift) || input.next_clicked,
        asked(input, SearchStep::Retreat) <==> (input.enter && input.shift)
            || input.previous_clicked,
        asked(input, SearchStep::Reveal) <==> input.query_changed || input.enter
            || input.previous_clicked || input.next_clicked,
        asked(input, SearchStep::Close) <==> input.escape || input.close_clicked,
{
    let all = search_steps(input);
    let typed = input.query_changed || input.enter;
    let clicked = input.previous_clicked || input.next_clicked;
    let a: int = if input.query_changed { 1 } else { 0 };
    let b: int = a + if input.enter { 1int } else { 0int };
    let c: int = b + if typed { 1int } else { 0int };
    let d: int = c + if input.previous_clicked { 1int } else { 0int };
    let e: int = d + if input.next_clicked { 1int } else { 0int };
    let f: int = e + if typed || clicked { 1int } else { 0int };
    let g: int = f + if input.escape || input.close_clicked { 1int } else { 0int };
    assert(all.len() == g);
    assert(input.query_changed ==> all[0] == SearchStep::SetQuery);
    assert(input.enter ==> all[a] == if input.shift {
        SearchStep::Retreat
    } else {
        SearchStep::Advance
    });
    assert(typed ==> all[b] == SearchStep::Reveal);
    assert(input.previous_clicked ==> all[c] == SearchStep::Retreat);
    assert(input.next_clicked ==> all[d] == SearchStep::Advance);
    assert(typed || clicked ==> all[e] == SearchStep::Reveal);
    assert(input.escape || input.close_clicked ==> all[f] == SearchStep::Close);
    assert forall|i: int| 0 <= i < all.len() implies {
        let step = #[trigger] all[i];
        &&& step == SearchStep::SetQuery ==> input.query_changed
        &&& step == SearchStep::Advance ==> (input.enter && !input.shift) || input.next_clicked
        &&& step == SearchStep::Retreat ==> (input.enter && input.shift) || input.previous_clicked
        &&& step == SearchStep::Reveal ==> typed || clicked
        &&& step == SearchStep::Close ==> input.escape || input.close_clicked
    } by {}
}

/// Every input in the find bar has its step, and there is no step without its
/// input: typing sets the query, Enter and the arrows go to the next or the
/// previous match, whatever changed the match brings it into view, and Escape and
/// the cross close the bar, after everything else.
pub proof fn steps_follow_from_the_input(input: FindBarInput)
    ensures
        asked(input, SearchStep::SetQuery) <==> input.query_changed,
        asked(input, SearchStep::Advance) <==> (input.enter && !input.shift) || input.next_clicked,
        asked(input, SearchStep::Retreat) <==> (input.enter && input.shift)
            || input.previous_clicked,
        asked(input, SearchStep::Reveal) <==> input.query_changed || input.enter
            || input.previous_clicked || input.next_clicked,
        input.escape || input.close_clicked ==> search_steps(input).len() > 0 && search_steps(
            input,
        ).last() == SearchStep::Close,
        !(input.escape || input.close_clicked) ==> !asked(input, SearchStep::Close),
        input.query_changed ==> search_steps(input)[0] == SearchStep::SetQuery,
{
    steps_one_by_one(input);
}

} // verus!
