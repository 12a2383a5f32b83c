use std::rc::Rc;

use anyflux::Registry;
use anyflux::Store;

#[derive(Clone, PartialEq, Eq)]
struct TestState(u32);
impl Store for TestState {
    fn new(_reg: &Registry) -> Self {
        Self(0)
    }

    fn should_notify(&self, other: &Self) -> bool {
        self != other
    }
}

#[derive(Clone, PartialEq, Eq)]
struct TestState2(u32);
impl Store for TestState2 {
    fn new(reg: &Registry) -> Self {
        reg.get_or_init::<TestState>();
        Self(0)
    }

    fn should_notify(&self, other: &Self) -> bool {
        self != other
    }
}

#[test]
fn can_access_other_store_for_new_of_current_store() {
    let reg = Registry::new();
    let _context = reg.get_or_init::<TestState2>();
}

/// Counts how many times the store under observation has been constructed.
#[derive(Clone, PartialEq, Eq)]
struct NewCallCount(u32);
impl Store for NewCallCount {
    fn new(_reg: &Registry) -> Self {
        Self(0)
    }

    fn should_notify(&self, other: &Self) -> bool {
        self != other
    }
}

#[derive(Clone, PartialEq, Eq)]
struct StoreNewIsOnlyCalledOnce(u32);
impl Store for StoreNewIsOnlyCalledOnce {
    fn new(reg: &Registry) -> Self {
        let count = reg.get_or_init::<NewCallCount>();
        count.reduce(|c: Rc<NewCallCount>| Rc::new(NewCallCount(c.0 + 1)));
        Self(0)
    }

    fn should_notify(&self, other: &Self) -> bool {
        self != other
    }
}

#[test]
fn store_new_is_only_called_once() {
    let reg = Registry::new();
    reg.get_or_init::<StoreNewIsOnlyCalledOnce>();
    let _context = reg.get_or_init::<StoreNewIsOnlyCalledOnce>();

    assert!(reg.get_or_init::<NewCallCount>().snapshot().0 == 1)
}

/// A dependency whose construction is tallied, so that reconstruction would
/// be visible.
#[derive(Clone, PartialEq, Eq)]
struct Dependency(u32);
impl Store for Dependency {
    fn new(reg: &Registry) -> Self {
        let tally = reg.get_or_init::<NewCallCount>();
        tally.reduce(|c: Rc<NewCallCount>| Rc::new(NewCallCount(c.0 + 1)));
        Self(0)
    }

    fn should_notify(&self, other: &Self) -> bool {
        self != other
    }
}

#[derive(Clone, PartialEq, Eq)]
struct Dependent(u32);
impl Store for Dependent {
    fn new(reg: &Registry) -> Self {
        reg.get_or_init::<Dependency>();
        Self(0)
    }

    fn should_notify(&self, other: &Self) -> bool {
        self != other
    }
}

#[test]
fn reentrantly_built_dependency_is_not_rebuilt() {
    let reg = Registry::new();
    // Constructs Dependency reentrantly, before it was ever requested directly.
    reg.get_or_init::<Dependent>();
    // A direct request afterwards must find the ready entry, not rebuild.
    reg.get_or_init::<Dependency>();

    assert!(reg.get_or_init::<NewCallCount>().snapshot().0 == 1);
}

#[test]
fn handles_from_repeated_calls_share_one_store() {
    let reg = Registry::new();
    let first = reg.get_or_init::<TestState>();
    let second = reg.get_or_init::<TestState>();

    first.reduce(|_s: Rc<TestState>| Rc::new(TestState(3)));

    assert!(second.snapshot().0 == 3);
}

#[test]
fn cloned_handle_shares_one_store() {
    let reg = Registry::new();
    let ctx = reg.get_or_init::<TestState>();
    let alias = ctx.clone();

    ctx.reduce(|_s: Rc<TestState>| Rc::new(TestState(4)));

    assert!(alias.snapshot().0 == 4);
}

#[test]
fn separate_registries_construct_independently() {
    let reg1 = Registry::new();
    let reg2 = Registry::new();

    let c1 = reg1.get_or_init::<TestState>();
    c1.reduce(|_s: Rc<TestState>| Rc::new(TestState(7)));

    let c2 = reg2.get_or_init::<TestState>();

    assert!(c2.snapshot().0 == 0);
    assert!(c1.snapshot().0 == 7);
}

#[test]
fn identity_reduce_does_not_notify() {
    let reg = Registry::new();
    let ctx = reg.get_or_init::<TestState>();

    assert!(!ctx.reduce(|s: Rc<TestState>| s));
}

#[test]
fn changing_reduce_notifies() {
    let reg = Registry::new();
    let ctx = reg.get_or_init::<TestState>();

    assert!(ctx.reduce(|_s: Rc<TestState>| Rc::new(TestState(1))));
    assert!(ctx.snapshot().0 == 1);
}

#[test]
fn transform_sees_the_state_before_the_call() {
    let reg = Registry::new();
    let ctx = reg.get_or_init::<TestState>();
    ctx.reduce(|_s: Rc<TestState>| Rc::new(TestState(5)));

    let alias = ctx.clone();
    let notify = ctx.reduce(move |old: Rc<TestState>| {
        // The transform received the pre-transition snapshot...
        assert!(old.0 == 5);
        // ...and a read through an aliased handle still shows it.
        assert!(alias.snapshot().0 == 5);
        Rc::new(TestState(9))
    });

    assert!(notify);
    assert!(ctx.snapshot().0 == 9);
}

#[test]
fn commit_writes_and_reports_significance() {
    let reg = Registry::new();
    let ctx = reg.get_or_init::<TestState>();

    let old = ctx.snapshot();
    assert!(ctx.commit(&old, Rc::new(TestState(2))));
    assert!(ctx.snapshot().0 == 2);

    let current = ctx.snapshot();
    assert!(!ctx.commit(&current, Rc::new(TestState(2))));
    assert!(ctx.snapshot().0 == 2);
}

/// A store that flags only increases, so the direction of the comparison —
/// the state before the transition against the state after — is observable.
#[derive(Clone, PartialEq, Eq)]
struct Rising(u32);
impl Store for Rising {
    fn new(_reg: &Registry) -> Self {
        Self(5)
    }

    fn should_notify(&self, other: &Self) -> bool {
        other.0 > self.0
    }
}

#[test]
fn significance_compares_before_to_after() {
    let reg = Registry::new();
    let ctx = reg.get_or_init::<Rising>();

    // 5 -> 6 is an increase: flagged.
    assert!(ctx.reduce(|s: Rc<Rising>| Rc::new(Rising(s.0 + 1))));
    // 6 -> 5 is a decrease: not flagged.
    assert!(!ctx.reduce(|s: Rc<Rising>| Rc::new(Rising(s.0 - 1))));
}

/// A store whose significance test deliberately ignores one field.
#[derive(Clone, PartialEq, Eq)]
struct Versioned {
    shown: u32,
    meta: u32,
}
impl Store for Versioned {
    fn new(_reg: &Registry) -> Self {
        Self { shown: 0, meta: 0 }
    }

    fn should_notify(&self, other: &Self) -> bool {
        self.shown != other.shown
    }
}

#[test]
fn significance_is_delegated_not_structural() {
    let reg = Registry::new();
    let ctx = reg.get_or_init::<Versioned>();

    // A structurally different snapshot that the store does not flag.
    assert!(!ctx.reduce(|s: Rc<Versioned>| Rc::new(Versioned { shown: s.shown, meta: 8 })));
    assert!(ctx.snapshot().meta == 8);

    // A change in the field the store watches is flagged.
    assert!(ctx.reduce(|s: Rc<Versioned>| Rc::new(Versioned { shown: 1, meta: s.meta })));
}
