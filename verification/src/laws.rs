//! What holds of the editor's operations taken together, stated over the
//! views that their contracts use.

use crate::app::{next_editing, next_loading, AppView, CurrentlyEditing};
use crate::json::json_object;
use vstd::prelude::*;

verus! {

/// The state after each of `commits`, a key and a value, is typed into the
/// two buffers and committed, one after the other.
pub open spec fn after_commits(start: AppView, commits: Seq<(Seq<char>, Seq<char>)>) -> AppView
    decreases commits.len(),
{
    if commits.len() == 0 {
        start
    } else {
        let before = after_commits(start, commits.drop_last());
        AppView { key_input: commits.last().0, value_input: commits.last().1, ..before }.saved()
    }
}

/// After a run of commits a key holds the value of the last commit that
/// named it, whatever was committed under it before.
pub proof fn last_commit_wins(start: AppView, commits: Seq<(Seq<char>, Seq<char>)>, i: int)
    requires
        0 <= i < commits.len(),
        forall|j: int| i < j < commits.len() ==> commits[j].0 != commits[i].0,
    ensures
        after_commits(start, commits).pairs.contains_key(commits[i].0),
        after_commits(start, commits).pairs[commits[i].0] == commits[i].1,
    decreases commits.len(),
{
    if i < commits.len() - 1 {
        let front = commits.drop_last();
        assert(commits.last().0 != commits[i].0);
        assert(front[i] == commits[i]);
        assert forall|j: int| i < j < front.len() implies front[j].0 != front[i].0 by {
            assert(front[j] == commits[j]);
        }
        last_commit_wins(start, front, i);
    }
}

/// A run of commits leaves every key that no commit names as it was: there
/// with its old value, or not there.
pub proof fn commits_leave_other_keys(
    start: AppView,
    commits: Seq<(Seq<char>, Seq<char>)>,
    key: Seq<char>,
)
    requires
        forall|j: int| 0 <= j < commits.len() ==> commits[j].0 != key,
    ensures
        after_commits(start, commits).pairs.contains_key(key) == start.pairs.contains_key(key),
        start.pairs.contains_key(key) ==> after_commits(start, commits).pairs[key]
            == start.pairs[key],
    decreases commits.len(),
{
    if commits.len() > 0 {
        let front = commits.drop_last();
        assert(commits[commits.len() - 1].0 != key);
        assert forall|j: int| 0 <= j < front.len() implies front[j].0 != key by {
            assert(front[j] == commits[j]);
        }
        commits_leave_other_keys(start, front, key);
    }
}

/// The keys that a run of commits names.
pub open spec fn committed_keys(commits: Seq<(Seq<char>, Seq<char>)>) -> Set<Seq<char>> {
    Set::new(|key: Seq<char>| exists|i: int| 0 <= i < commits.len() && #[trigger] commits[i].0 == key)
}

/// After a run of commits the pairs hold the keys they held before and the
/// keys that the commits named, and no others.
pub proof fn commits_add_their_keys(start: AppView, commits: Seq<(Seq<char>, Seq<char>)>)
    ensures
        after_commits(start, commits).pairs.dom() == start.pairs.dom().union(
            committed_keys(commits),
        ),
    decreases commits.len(),
{
    let after = after_commits(start, commits).pairs.dom();
    let claimed = start.pairs.dom().union(committed_keys(commits));
    if commits.len() == 0 {
        assert(after =~= claimed);
    } else {
        let front = commits.drop_last();
        commits_add_their_keys(start, front);
        assert forall|key: Seq<char>| after.contains(key) <==> claimed.contains(key) by {
            if committed_keys(front).contains(key) {
                let i = choose|i: int| 0 <= i < front.len() && #[trigger] front[i].0 == key;
                assert(commits[i].0 == key);
            }
            if commits.last().0 == key {
                assert(commits[commits.len() - 1].0 == key);
            }
            if committed_keys(commits).contains(key) {
                let i = choose|i: int| 0 <= i < commits.len() && #[trigger] commits[i].0 == key;
                if i < commits.len() - 1 {
                    assert(front[i].0 == key);
                }
            }
        }
        assert(after =~= claimed);
    }
}

/// A run of commits touches the pairs and, once it has begun, clears the
/// buffers and the focus; the screen, the load phase and the latest output
/// stay as they were.
pub proof fn commits_change_pairs_only(start: AppView, commits: Seq<(Seq<char>, Seq<char>)>)
    ensures
        after_commits(start, commits).current_screen == start.current_screen,
        after_commits(start, commits).currently_loading == start.currently_loading,
        after_commits(start, commits).print_json == start.print_json,
        commits.len() > 0 ==> after_commits(start, commits).currently_editing is None,
        commits.len() > 0 ==> after_commits(start, commits).key_input == Seq::<char>::empty(),
        commits.len() > 0 ==> after_commits(start, commits).value_input == Seq::<char>::empty(),
    decreases commits.len(),
{
    if commits.len() > 0 {
        commits_change_pairs_only(start, commits.drop_last());
    }
}

/// A commit ends the composing of a pair: no buffer has the focus and both
/// are empty, whatever they held.
pub proof fn commit_ends_editing(state: AppView)
    ensures
        state.saved().currently_editing is None,
        state.saved().key_input == Seq::<char>::empty(),
        state.saved().value_input == Seq::<char>::empty(),
        state.saved().pairs.contains_key(state.key_input),
        state.saved().pairs[state.key_input] == state.value_input,
{
}

/// The focus never returns to `None` by moving on: it starts at the key and
/// from then on alternates, so two moves from a buffer lead back to it.
pub proof fn editing_cycles(editing: Option<CurrentlyEditing>)
    ensures
        next_editing(editing) is Some,
        editing is None ==> next_editing(editing) == Some(CurrentlyEditing::Key),
        editing is Some ==> next_editing(editing) != editing,
        editing is Some ==> next_editing(next_editing(editing)) == editing,
{
}

/// Advancing the load phase a second time changes nothing.
pub proof fn loading_settles(state: AppView)
    ensures
        state.toggled_loading().currently_loading is Some,
        state.toggled_loading().toggled_loading() == state.toggled_loading(),
        state.currently_loading is Some ==> state.toggled_loading() == state,
{
}

/// A merge is a union in which the loaded side wins: a loaded key holds the
/// loaded value, and any other key is as it was.
pub proof fn merge_overwrites_and_keeps(
    state: AppView,
    loaded: Map<Seq<char>, Seq<char>>,
    key: Seq<char>,
)
    ensures
        loaded.contains_key(key) ==> state.merged(loaded).pairs.contains_key(key) && state.merged(
            loaded,
        ).pairs[key] == loaded[key],
        !loaded.contains_key(key) ==> state.merged(loaded).pairs.contains_key(key)
            == state.pairs.contains_key(key),
        !loaded.contains_key(key) && state.pairs.contains_key(key) ==> state.merged(
            loaded,
        ).pairs[key] == state.pairs[key],
{
}

/// A text that the pairs of `written` were written out as loads back as
/// those pairs: into a state without pairs it brings exactly them, and into
/// the state it came from it changes nothing.
pub proof fn written_text_loads_back(written: AppView, text: Seq<char>, fresh: AppView)
    requires
        json_object(text) == Some(written.pairs),
        fresh.pairs == Map::<Seq<char>, Seq<char>>::empty(),
    ensures
        fresh.loaded(text).pairs == written.pairs,
        written.loaded(text) == written,
{
    assert(fresh.pairs.union_prefer_right(written.pairs) =~= written.pairs);
    assert(written.pairs.union_prefer_right(written.pairs) =~= written.pairs);
}

} // verus!
