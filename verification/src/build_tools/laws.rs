//! What holds of cleaning, whatever the build tool and whatever is found in
//! the project directory.

use vstd::prelude::*;
use crate::build_tools::{
    clean_steps, freeable, left_by, reclaimable, remaining, rule_applies, rule_covers, spared,
    status_of, tag_rules, targets, tool_status, BuildStatus, Rule, ToolView,
};
use crate::fs::Folder;

verus! {

/// The name of every rule that applies is among the targets.
pub proof fn lemma_targets_hold_applied(rules: Seq<Rule>, subdirs: Seq<Folder>, k: int)
    requires
        0 <= k < rules.len(),
        rule_applies(rules[k], subdirs),
    ensures
        targets(rules, subdirs).contains(rules[k].name),
    decreases rules.len(),
{
    if k == rules.len() - 1 {
        let t = targets(rules, subdirs);
        assert(t[t.len() - 1] == rules[k].name);
    } else {
        lemma_targets_hold_applied(rules.drop_last(), subdirs, k);
        let shorter = targets(rules.drop_last(), subdirs);
        let i = choose|i: int| 0 <= i < shorter.len() && shorter[i] == rules[k].name;
        assert(targets(rules, subdirs)[i] == rules[k].name);
    }
}

/// Every target is the name of a rule that applies.
pub proof fn lemma_targets_are_applied(rules: Seq<Rule>, subdirs: Seq<Folder>, name: Seq<char>)
    requires
        targets(rules, subdirs).contains(name),
    ensures
        exists|k: int|
            0 <= k < rules.len() && (#[trigger] rules[k]).name == name && rule_applies(
                rules[k],
                subdirs,
            ),
    decreases rules.len(),
{
    let t = targets(rules, subdirs);
    let i = choose|i: int| 0 <= i < t.len() && t[i] == name;
    if rules.len() > 0 {
        let shorter = targets(rules.drop_last(), subdirs);
        if rule_applies(rules.last(), subdirs) && i == t.len() - 1 {
            assert(rules[rules.len() - 1].name == name);
        } else {
            assert(shorter[i] == name);
            lemma_targets_are_applied(rules.drop_last(), subdirs, name);
            let k = choose|k: int|
                0 <= k < rules.drop_last().len() && (#[trigger] rules.drop_last()[k]).name == name
                    && rule_applies(rules.drop_last()[k], subdirs);
            assert(rules[k].name == name);
        }
    }
}

/// Where no directory can be reclaimed, nothing can be freed.
pub proof fn lemma_nothing_reclaimable(rules: Seq<Rule>, subdirs: Seq<Folder>)
    requires
        forall|i: int| 0 <= i < subdirs.len() ==> !reclaimable(rules, #[trigger] subdirs[i]),
    ensures
        freeable(rules, subdirs) == 0,
    decreases subdirs.len(),
{
    if subdirs.len() > 0 {
        lemma_nothing_reclaimable(rules, subdirs.drop_last());
    }
}

/// Where nothing can be freed, every directory that can be reclaimed is
/// empty.
pub proof fn lemma_clean_means_empty(rules: Seq<Rule>, subdirs: Seq<Folder>, i: int)
    requires
        freeable(rules, subdirs) == 0,
        0 <= i < subdirs.len(),
        reclaimable(rules, subdirs[i]),
    ensures
        subdirs[i].size == 0,
    decreases subdirs.len(),
{
    if i < subdirs.len() - 1 {
        lemma_clean_means_empty(rules, subdirs.drop_last(), i);
    }
}

/// After cleaning, a project is clean: what remains when the planned
/// removals are done holds nothing that could be freed.
pub proof fn lemma_clean_leaves_clean(rules: Seq<Rule>, subdirs: Seq<Folder>)
    ensures
        status_of(rules, remaining(rules, subdirs)) == BuildStatus::Clean,
{
    let left = remaining(rules, subdirs);
    let gone = spared(rules, subdirs);
    assert forall|i: int| 0 <= i < left.len() implies !reclaimable(rules, #[trigger] left[i]) by {
        let d = left[i];
        subdirs.lemma_filter_pred(gone, i);
        assert(left.contains(d));
        subdirs.lemma_filter_contains_rev(gone, d);
        assert(subdirs.contains(d) && gone(d));
        if reclaimable(rules, d) {
            let k = choose|k: int| 0 <= k < rules.len() && rule_covers(#[trigger] rules[k], d);
            let j = choose|j: int| 0 <= j < subdirs.len() && subdirs[j] == d;
            assert(rule_covers(rules[k], subdirs[j]));
            lemma_targets_hold_applied(rules, subdirs, k);
        }
    }
    lemma_nothing_reclaimable(rules, left);
}

proof fn lemma_filter_keeps_all(s: Seq<Folder>, keep: spec_fn(Folder) -> bool)
    requires
        forall|i: int| 0 <= i < s.len() ==> keep(#[trigger] s[i]),
    ensures
        s.filter(keep) == s,
    decreases s.len(),
{
    reveal(Seq::filter);
    if s.len() > 0 {
        lemma_filter_keeps_all(s.drop_last(), keep);
        assert(s.drop_last().push(s.last()) =~= s);
    } else {
        assert(s.filter(keep) =~= s);
    }
}

/// Cleaning a clean project is a no-op, unless an empty directory is among
/// those that a rule covers: where the status is clean and every directory
/// that can be reclaimed holds something, no step is planned.
pub proof fn lemma_clean_project_is_left_alone(tool: ToolView, subdirs: Seq<Folder>)
    requires
        tool_status(tool, subdirs) == BuildStatus::Clean,
        forall|i: int|
            0 <= i < subdirs.len() && reclaimable(tag_rules(tool.tag).unwrap(), #[trigger] subdirs[i])
                ==> subdirs[i].size > 0,
    ensures
        clean_steps(tool, subdirs, false).len() == 0,
        left_by(tool, subdirs, false) == subdirs,
        tool_status(tool, left_by(tool, subdirs, false)) == BuildStatus::Clean,
{
    let rules = tag_rules(tool.tag).unwrap();
    let t = targets(rules, subdirs);
    if t.len() > 0 {
        assert(t.contains(t[0]));
        lemma_targets_are_applied(rules, subdirs, t[0]);
        let k = choose|k: int|
            0 <= k < rules.len() && (#[trigger] rules[k]).name == t[0] && rule_applies(
                rules[k],
                subdirs,
            );
        let i = choose|i: int| 0 <= i < subdirs.len() && rule_covers(rules[k], #[trigger] subdirs[i]);
        assert(reclaimable(rules, subdirs[i]));
        lemma_clean_means_empty(rules, subdirs, i);
    }
    let keep = spared(rules, subdirs);
    assert(t =~= Seq::<Seq<char>>::empty());
    assert forall|i: int| 0 <= i < subdirs.len() implies keep(#[trigger] subdirs[i]) by {}
    lemma_filter_keeps_all(subdirs, keep);
    assert(remaining(rules, subdirs) =~= subdirs);
}

/// After a tool that knows what it can regenerate has cleaned a project,
/// it reports the project clean.
pub proof fn lemma_cleaned_tool_is_clean(tool: ToolView, subdirs: Seq<Folder>)
    requires
        tag_rules(tool.tag).is_some(),
    ensures
        tool_status(tool, left_by(tool, subdirs, false)) == BuildStatus::Clean,
{
    lemma_clean_leaves_clean(tag_rules(tool.tag).unwrap(), subdirs);
}

/// A dry run plans printed lines only, and leaves every directory where it
/// is.
pub proof fn lemma_dry_run_changes_nothing(tool: ToolView, subdirs: Seq<Folder>, i: int)
    requires
        0 <= i < clean_steps(tool, subdirs, true).len(),
    ensures
        clean_steps(tool, subdirs, true)[i] is Print,
        left_by(tool, subdirs, true) == subdirs,
{
}

} // verus!
