//! A firewall backend that keeps its rules in memory.

use crate::firewall::backend::FirewallBackend;
use crate::firewall::error::{FirewallError, FirewallErrorView};
use crate::firewall::rule::{AccessRule, AccessRuleView, RuleHandle};
use crate::text;
use vstd::prelude::*;

verus! {

/// A backend that records what would be installed. No two of its entries have the
/// same handle.
#[derive(Debug)]
pub struct MockBackend {
    initialized: bool,
    next_id: u64,
    rules: Vec<(String, AccessRule)>,
}

/// The model of a [`MockBackend`].
#[verifier::ext_equal]
pub struct MockView {
    /// Whether the backend is prepared.
    pub initialized: bool,
    /// The number in the next handle.
    pub next_id: u64,
    /// The installed rules with their handles, in the order in which they came.
    pub rules: Seq<(Seq<char>, AccessRuleView)>,
}

/// The model of installed rules.
pub open spec fn entries(rules: Seq<(String, AccessRule)>) -> Seq<(Seq<char>, AccessRuleView)> {
    rules.map_values(|e: (String, AccessRule)| (e.0@, e.1@))
}

impl View for MockBackend {
    type V = MockView;

    closed spec fn view(&self) -> MockView {
        MockView {
            initialized: self.initialized,
            next_id: self.next_id,
            rules: entries(self.rules@),
        }
    }
}

/// The first place from `i` on that has the handle `key`.
pub open spec fn key_index(
    rules: Seq<(Seq<char>, AccessRuleView)>,
    key: Seq<char>,
    i: int,
) -> Option<int>
    decreases rules.len() - i,
{
    if i < 0 || i >= rules.len() {
        None
    } else if rules[i].0 == key {
        Some(i)
    } else {
        key_index(rules, key, i + 1)
    }
}

/// The rules with `rule` under the handle `key`, in place of what had that handle.
pub open spec fn with_entry(
    rules: Seq<(Seq<char>, AccessRuleView)>,
    key: Seq<char>,
    rule: AccessRuleView,
) -> Seq<(Seq<char>, AccessRuleView)> {
    match key_index(rules, key, 0) {
        Some(i) => rules.update(i, (key, rule)),
        None => rules.push((key, rule)),
    }
}

/// The text of the handle with number `id`.
pub open spec fn mock_handle(id: u64) -> Seq<char> {
    "mock-"@ + text::decimal(id as nat)
}

/// What installing a rule does to a backend that is prepared.
pub open spec fn mock_opened(before: MockView, rule: AccessRuleView) -> MockView {
    MockView {
        initialized: before.initialized,
        next_id: if before.next_id == u64::MAX {
            0
        } else {
            (before.next_id + 1) as u64
        },
        rules: with_entry(before.rules, mock_handle(before.next_id), rule),
    }
}

/// What removing the rule with a handle does.
pub open spec fn mock_removed(before: MockView, key: Seq<char>) -> MockView {
    match key_index(before.rules, key, 0) {
        Some(i) => MockView { rules: before.rules.remove(i), ..before },
        None => before,
    }
}

impl Default for MockBackend {
    fn default() -> (r: MockBackend)
        ensures
            r@ == (MockView { initialized: false, next_id: 0, rules: Seq::empty() }),
    {
        MockBackend::new()
    }
}

impl MockBackend {
    /// A backend without rules that is not prepared.
    #[must_use]
    pub fn new() -> (r: MockBackend)
        ensures
            r@ == (MockView { initialized: false, next_id: 0, rules: Seq::empty() }),
    {
        let r = MockBackend { initialized: false, next_id: 0, rules: Vec::new() };
        assert(entries(r.rules@) =~= Seq::empty());
        r
    }

    /// Whether the backend was prepared and not torn down since.
    #[must_use]
    pub fn is_initialized(&self) -> (r: bool)
        ensures
            r == self@.initialized,
    {
        self.initialized
    }

    /// The installed rules with their handles.
    #[must_use]
    pub fn installed_rules(&self) -> (r: &Vec<(String, AccessRule)>)
        ensures
            entries(r@) == self@.rules,
    {
        &self.rules
    }

    /// The place of a handle.
    fn place_of(&self, key: &str) -> (r: Option<usize>)
        ensures
            match r {
                Some(i) => key_index(self@.rules, key@, 0) == Some(i as int) && i
                    < self.rules@.len(),
                None => key_index(self@.rules, key@, 0) is None,
            },
    {
        for i in 0..self.rules.len()
            invariant
                key_index(self@.rules, key@, 0) == key_index(self@.rules, key@, i as int),
        {
            assert(self@.rules[i as int].0 == self.rules@[i as int].0@);
            if text::same_text(self.rules[i].0.as_str(), key) {
                return Some(i);
            }
        }
        None
    }
}

impl FirewallBackend for MockBackend {
    open spec fn inits(before: Self, after: Self, r: Result<(), FirewallError>) -> bool {
        r is Ok && after@ == (MockView { initialized: true, ..before@ })
    }

    open spec fn opens(
        before: Self,
        rule: AccessRule,
        after: Self,
        r: Result<RuleHandle, FirewallError>,
    ) -> bool {
        if before@.initialized {
            &&& r is Ok
            &&& r->Ok_0.0@ == mock_handle(before@.next_id)
            &&& after@ == mock_opened(before@, rule@)
        } else {
            &&& r is Err
            &&& r->Err_0@ == FirewallErrorView::InconsistentState("open_access called before init"@)
            &&& after@ == before@
        }
    }

    open spec fn removes(
        before: Self,
        handle: RuleHandle,
        after: Self,
        r: Result<(), FirewallError>,
    ) -> bool {
        &&& after@ == mock_removed(before@, handle.0@)
        &&& r is Ok <==> key_index(before@.rules, handle.0@, 0) is Some
        &&& r is Err ==> r->Err_0@ == FirewallErrorView::RuleNotFound(handle.0@)
    }

    open spec fn flushes(before: Self, after: Self, r: Result<(), FirewallError>) -> bool {
        r is Ok && after@ == (MockView { initialized: false, rules: Seq::empty(), ..before@ })
    }

    fn init(&mut self) -> (r: Result<(), FirewallError>) {
        self.initialized = true;
        Ok(())
    }

    fn open_access(&mut self, rule: &AccessRule) -> (r: Result<RuleHandle, FirewallError>) {
        if !self.initialized {
            return Err(
                FirewallError::InconsistentState("open_access called before init".to_owned()),
            );
        }
        let mut id = "mock-".to_owned();
        text::push_decimal(&mut id, self.next_id);
        let handle = RuleHandle::new(id.as_str());
        let place = self.place_of(id.as_str());
        let entry = (id, rule.copy());
        let ghost before = self.rules@;
        self.next_id = self.next_id.wrapping_add(1);
        match place {
            Some(i) => {
                self.rules.set(i, entry);
                assert(entries(self.rules@) =~= entries(before).update(i as int, (id@, rule@)));
            },
            None => {
                self.rules.push(entry);
                assert(entries(self.rules@) =~= entries(before).push((id@, rule@)));
            },
        }
        Ok(handle)
    }

    fn remove_rule(&mut self, handle: &RuleHandle) -> (r: Result<(), FirewallError>) {
        let ghost before = self.rules@;
        match self.place_of(handle.as_str()) {
            Some(i) => {
                let removed = self.rules.remove(i);
                assert(entries(self.rules@) =~= entries(before).remove(i as int));
                Ok(())
            },
            None => Err(FirewallError::RuleNotFound(handle.as_str().to_owned())),
        }
    }

    fn flush(&mut self) -> (r: Result<(), FirewallError>) {
        self.rules = Vec::new();
        self.initialized = false;
        assert(entries(self.rules@) =~= Seq::empty());
        Ok(())
    }
}

impl MockView {
    /// Every handle was given out before the next one, and no two entries have the
    /// same handle.
    pub open spec fn wf(self) -> bool {
        &&& forall|i: int|
            0 <= i < self.rules.len() ==> given_out((#[trigger] self.rules[i]).0, self.next_id)
        &&& forall|i: int, j: int|
            0 <= i < j < self.rules.len() ==> (#[trigger] self.rules[i]).0 != (
            #[trigger] self.rules[j]).0
    }
}

/// Whether a handle has a number below `next_id`.
pub open spec fn given_out(key: Seq<char>, next_id: u64) -> bool {
    exists|id: u64| id < next_id && key == #[trigger] mock_handle(id)
}

/// A handle that is looked for is found at a place that has it, or nowhere.
proof fn lemma_key_index(rules: Seq<(Seq<char>, AccessRuleView)>, key: Seq<char>, from: int)
    requires
        0 <= from,
    ensures
        match key_index(rules, key, from) {
            Some(i) => from <= i < rules.len() && rules[i].0 == key,
            None => forall|i: int| from <= i < rules.len() ==> (#[trigger] rules[i]).0 != key,
        },
    decreases rules.len() - from,
{
    if from < rules.len() && rules[from].0 != key {
        lemma_key_index(rules, key, from + 1);
    }
}

/// Handles with different numbers are different.
pub proof fn law_handles_differ(a: u64, b: u64)
    requires
        a != b,
    ensures
        mock_handle(a) != mock_handle(b),
{
    if mock_handle(a) == mock_handle(b) {
        let n = "mock-"@.len() as int;
        assert(mock_handle(a).skip(n) =~= text::decimal(a as nat));
        assert(mock_handle(b).skip(n) =~= text::decimal(b as nat));
        text::lemma_decimal_injective(a as nat, b as nat);
    }
}

/// The next handle is new: no installed rule has it.
proof fn lemma_next_handle_is_new(v: MockView)
    requires
        v.wf(),
    ensures
        key_index(v.rules, mock_handle(v.next_id), 0) is None,
{
    lemma_key_index(v.rules, mock_handle(v.next_id), 0);
    if let Some(i) = key_index(v.rules, mock_handle(v.next_id), 0) {
        assert(given_out(v.rules[i].0, v.next_id));
        let id = choose|id: u64| id < v.next_id && v.rules[i].0 == #[trigger] mock_handle(id);
        law_handles_differ(id, v.next_id);
    }
}

/// A new backend and one that was torn down keep their handles apart.
pub proof fn law_empty_keeps_handles_apart(initialized: bool, next_id: u64)
    ensures
        (MockView { initialized, next_id, rules: Seq::empty() }).wf(),
{
}

/// Installing a rule keeps the handles apart and adds exactly that rule, as long as
/// the numbers of the handles do not run out.
pub proof fn law_open_adds_one_rule(v: MockView, rule: AccessRuleView)
    requires
        v.wf(),
        v.next_id < u64::MAX,
    ensures
        mock_opened(v, rule).wf(),
        mock_opened(v, rule).rules == v.rules.push((mock_handle(v.next_id), rule)),
{
    lemma_next_handle_is_new(v);
    lemma_key_index(v.rules, mock_handle(v.next_id), 0);
    let after = mock_opened(v, rule);
    assert forall|i: int| 0 <= i < after.rules.len() implies given_out(
        (#[trigger] after.rules[i]).0,
        after.next_id,
    ) by {
        if i < v.rules.len() {
            assert(given_out(v.rules[i].0, v.next_id));
            let id = choose|id: u64| id < v.next_id && v.rules[i].0 == #[trigger] mock_handle(id);
            assert(id < after.next_id && after.rules[i].0 == mock_handle(id));
        } else {
            assert(v.next_id < after.next_id && after.rules[i].0 == mock_handle(v.next_id));
        }
    }
}

/// Removing a rule keeps the handles apart, and a second removal finds no rule.
pub proof fn law_remove_is_final(v: MockView, key: Seq<char>)
    requires
        v.wf(),
    ensures
        mock_removed(v, key).wf(),
        key_index(mock_removed(v, key).rules, key, 0) is None,
{
    let after = mock_removed(v, key);
    lemma_key_index(v.rules, key, 0);
    lemma_key_index(after.rules, key, 0);
    if let Some(i) = key_index(v.rules, key, 0) {
        assert forall|j: int| 0 <= j < after.rules.len() implies given_out(
            (#[trigger] after.rules[j]).0,
            after.next_id,
        ) && after.rules[j].0 != key by {
            let k = if j < i {
                j
            } else {
                j + 1
            };
            assert(after.rules[j] == v.rules[k]);
            assert(given_out(v.rules[k].0, v.next_id));
        }
    }
}

/// Removing the rule that was installed last leaves the rules as they were before it
/// was installed.
pub proof fn law_remove_undoes_open(v: MockView, rule: AccessRuleView)
    requires
        v.wf(),
        v.next_id < u64::MAX,
    ensures
        mock_removed(mock_opened(v, rule), mock_handle(v.next_id)).rules == v.rules,
{
    let after = mock_opened(v, rule);
    let key = mock_handle(v.next_id);
    law_open_adds_one_rule(v, rule);
    lemma_next_handle_is_new(v);
    lemma_key_index(v.rules, key, 0);
    lemma_key_index(after.rules, key, 0);
    assert(after.rules[v.rules.len() as int].0 == key);
    assert(key_index(after.rules, key, 0) == Some(v.rules.len() as int)) by {
        let i = key_index(after.rules, key, 0)->0;
        if i < v.rules.len() {
            assert(v.rules[i].0 == after.rules[i].0);
        }
    }
    assert(after.rules.remove(v.rules.len() as int) =~= v.rules);
}

/// What installing does in a backend that is prepared: it succeeds, the handle is `mock-` and
/// the next number, and the rules are those of before and the new one. In one that is not it
/// fails and changes nothing.
pub proof fn law_open_keeps_the_rule(
    before: MockBackend,
    rule: AccessRule,
    after: MockBackend,
    r: Result<RuleHandle, FirewallError>,
)
    requires
        MockBackend::opens(before, rule, after, r),
        before@.wf(),
        before@.next_id < 0xffff_ffff_ffff_ffff,
    ensures
        before@.initialized ==> {
            &&& r is Ok
            &&& r->Ok_0.0@ == "mock-"@ + text::decimal(before@.next_id as nat)
            &&& after@.initialized
            &&& after@.next_id == before@.next_id + 1
            &&& after@.rules.len() == before@.rules.len() + 1
            &&& after@.rules.last().0 == r->Ok_0.0@
            &&& after@.rules.last().1.source_ip == rule.source_ip
            &&& after@.rules.last().1.ports == rule.ports@
            &&& after@.rules.last().1.timeout == rule.timeout
            &&& after@.rules.last().1.comment == rule.comment@
            &&& forall|i: int|
                0 <= i < before@.rules.len() ==> #[trigger] after@.rules[i] == before@.rules[i]
        },
        !before@.initialized ==> r is Err && after@ == before@,
{
    law_open_adds_one_rule(before@, rule@);
}

/// Removing takes away the rule with the handle and leaves all others as they were and in their
/// order; it fails exactly where no rule has the handle, and then changes nothing.
pub proof fn law_remove_takes_one_rule(
    before: MockBackend,
    handle: RuleHandle,
    after: MockBackend,
    r: Result<(), FirewallError>,
    i: int,
)
    requires
        MockBackend::removes(before, handle, after, r),
        before@.wf(),
    ensures
        r is Ok <==> exists|k: int|
            0 <= k < before@.rules.len() && (#[trigger] before@.rules[k]).0 == handle.0@,
        0 <= i < before@.rules.len() && before@.rules[i].0 == handle.0@ ==> after@.rules
            == before@.rules.take(i) + before@.rules.skip(i + 1),
        r is Err ==> after@ == before@ && r->Err_0@ == FirewallErrorView::RuleNotFound(handle.0@),
        after@.initialized == before@.initialized,
        after@.next_id == before@.next_id,
{
    let rules = before@.rules;
    lemma_key_index(rules, handle.0@, 0);
    if 0 <= i < rules.len() && rules[i].0 == handle.0@ {
        let k = key_index(rules, handle.0@, 0)->0;
        assert(k == i) by {
            if k < i {
                assert(rules[k].0 != rules[i].0);
            } else if i < k {
                assert(rules[i].0 != rules[k].0);
            }
        }
        assert(rules.remove(i) =~= rules.take(i) + rules.skip(i + 1));
    }
}

/// Preparing marks the backend and keeps its rules; tearing it down takes the mark and the rules
/// away. Both succeed.
pub proof fn law_prepare_and_tear_down(
    before: MockBackend,
    after: MockBackend,
    r: Result<(), FirewallError>,
)
    ensures
        MockBackend::inits(before, after, r) ==> r is Ok && after@.initialized && after@.rules
            == before@.rules && after@.next_id == before@.next_id,
        MockBackend::flushes(before, after, r) ==> r is Ok && !after@.initialized
            && after@.rules.len() == 0 && after@.next_id == before@.next_id,
{
}

/// The rules that are shown are the ones that are installed, with their handles.
pub proof fn law_installed_rules_are_shown(m: MockBackend, r: &Vec<(String, AccessRule)>, i: int)
    requires
        call_ensures(MockBackend::installed_rules, (&m,), r),
        0 <= i < m@.rules.len(),
    ensures
        r@.len() == m@.rules.len(),
        r@[i].0@ == m@.rules[i].0,
        r@[i].1.source_ip == m@.rules[i].1.source_ip,
        r@[i].1.ports@ == m@.rules[i].1.ports,
        r@[i].1.timeout == m@.rules[i].1.timeout,
        r@[i].1.comment@ == m@.rules[i].1.comment,
{
    assert(entries(r@)[i] == (r@[i].0@, r@[i].1@));
}

} // verus!
