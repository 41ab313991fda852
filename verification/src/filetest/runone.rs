//! The plan for the tests of one file.
//!
//! The tests do not run in the order of the commands that ask for them.
//! Tests that change the function run last, so that as few of them as can
//! be have to work on a copy, and among the others those that can do
//! without the verifier run first. A test that needs a target runs once for
//! every target that the file names; any other test runs once.

use crate::filetest::subtest::{Context, SubTest};
use crate::isa::TargetIsa;
use crate::settings::Flags;
use vstd::prelude::*;
use vstd::string::*;

verus! {

/// The targets that a test file names.
#[derive(Debug)]
pub enum IsaSpec {
    /// The file names no target. These are the settings that it makes.
    Settings(Flags),
    /// The file names these targets, in this order.
    Targets(Vec<TargetIsa>),
}

impl IsaSpec {
    /// The targets that the file names.
    pub open spec fn targets(&self) -> Seq<TargetIsa> {
        match *self {
            IsaSpec::Settings(_) => Seq::empty(),
            IsaSpec::Targets(isas) => isas@,
        }
    }

    /// The place of the target, where the file names exactly one.
    pub open spec fn spec_unique_isa(&self) -> Option<usize> {
        if self.targets().len() == 1 {
            Some(0usize)
        } else {
            None
        }
    }

    /// The settings for the tests that need no target: those that the file
    /// makes, which are those of its last target where it names any.
    pub open spec fn spec_no_isa_flags(&self) -> Flags
        recommends
            *self is Targets ==> self.targets().len() > 0,
    {
        match *self {
            IsaSpec::Settings(flags) => flags,
            IsaSpec::Targets(isas) => isas@.last().flags(),
        }
    }

    /// The place of the target, where the file names exactly one.
    #[verifier::when_used_as_spec(spec_unique_isa)]
    pub fn unique_isa(&self) -> (isa: Option<usize>)
        ensures
            isa == self.unique_isa(),
    {
        match self {
            IsaSpec::Settings(_) => None,
            IsaSpec::Targets(isas) => if isas.len() == 1 {
                Some(0)
            } else {
                None
            },
        }
    }

    /// The settings for the tests that need no target.
    ///
    /// A file that names targets names at least one.
    #[verifier::when_used_as_spec(spec_no_isa_flags)]
    pub fn no_isa_flags(&self) -> (flags: Flags)
        requires
            self is Targets ==> self.targets().len() > 0,
        ensures
            flags == self.no_isa_flags(),
    {
        match self {
            IsaSpec::Settings(flags) => *flags,
            IsaSpec::Targets(isas) => isas[isas.len() - 1].flags(),
        }
    }
}

/// One run of a test: which test, with which settings, for which target.
#[derive(Clone, Copy, PartialEq, Eq, Debug, Structural)]
pub struct TestTuple {
    /// The test, by its place among the tests of the file.
    pub test: usize,
    /// The settings that the test runs with.
    pub flags: Flags,
    /// The target that the test runs for, by its place among the targets of
    /// the file.
    pub isa: Option<usize>,
}

/// What the tests are sorted by. Tests that leave the function alone come
/// before those that change it, and within either group those that do
/// without the verifier come before those that need it.
pub open spec fn sort_key(test: SubTest) -> nat {
    (if test.is_mutating() {
        2nat
    } else {
        0nat
    }) + (if test.needs_verifier() {
        1nat
    } else {
        0nat
    })
}

/// Whether the test at place `i` runs before the one at place `j`: it has
/// the smaller key, or the same key and the earlier place.
pub open spec fn runs_before(tests: Seq<SubTest>, i: int, j: int) -> bool {
    sort_key(tests[i]) < sort_key(tests[j]) || (sort_key(tests[i]) == sort_key(tests[j]) && i < j)
}

/// Whether the place `i` is listed in `order`.
pub open spec fn lists(order: Seq<usize>, i: int) -> bool {
    exists|p: int| 0 <= p < order.len() && #[trigger] order[p] == i
}

/// Whether `order` lists the places of all the tests, each once, so that
/// every test runs before the ones listed after it. That is the order in
/// which a stable sort by key leaves the tests.
pub open spec fn is_run_order(tests: Seq<SubTest>, order: Seq<usize>) -> bool {
    &&& order.len() == tests.len()
    &&& forall|p: int| 0 <= p < order.len() ==> (#[trigger] order[p]) < tests.len()
    &&& forall|i: int| 0 <= i < tests.len() ==> #[trigger] lists(order, i)
    &&& forall|p: int, q: int|
        0 <= p < q < order.len() ==> runs_before(
            tests,
            #[trigger] order[p] as int,
            #[trigger] order[q] as int,
        )
}

/// The places below `n` of the tests with the key `key`, in rising order.
pub open spec fn with_key(tests: Seq<SubTest>, key: nat, n: nat) -> Seq<usize>
    decreases n,
{
    if n == 0 {
        Seq::empty()
    } else {
        let before = with_key(tests, key, (n - 1) as nat);
        if sort_key(tests[n - 1]) == key {
            before.push((n - 1) as usize)
        } else {
            before
        }
    }
}

/// The order in which the tests run: key by key, and the tests of one key
/// in the order in which the file asks for them.
pub open spec fn run_order(tests: Seq<SubTest>) -> Seq<usize> {
    with_key(tests, 0, tests.len()) + with_key(tests, 1, tests.len()) + with_key(
        tests,
        2,
        tests.len(),
    ) + with_key(tests, 3, tests.len())
}

/// The runs of one test: one for every target where the test needs a
/// target, with the settings of that target, and else a single one with the
/// settings of the file. A test that needs no target is still told of the
/// target where there is exactly one.
pub open spec fn tuples_of_test(
    isa_spec: IsaSpec,
    no_isa_flags: Flags,
    test: usize,
    needs_isa: bool,
) -> Seq<TestTuple> {
    if needs_isa {
        Seq::new(
            isa_spec.targets().len(),
            |k: int|
                TestTuple { test, flags: isa_spec.targets()[k].flags(), isa: Some(k as usize) },
        )
    } else {
        seq![TestTuple { test, flags: no_isa_flags, isa: isa_spec.unique_isa() }]
    }
}

/// The runs of the tests listed in `order`, test after test.
pub open spec fn tuples_of_tests(
    tests: Seq<SubTest>,
    order: Seq<usize>,
    isa_spec: IsaSpec,
    no_isa_flags: Flags,
) -> Seq<TestTuple>
    decreases order.len(),
{
    if order.len() == 0 {
        Seq::empty()
    } else {
        tuples_of_tests(tests, order.drop_last(), isa_spec, no_isa_flags) + tuples_of_test(
            isa_spec,
            no_isa_flags,
            order.last(),
            tests[order.last() as int].needs_isa(),
        )
    }
}

/// Whether the test listed at place `p` of `order` is the first to need a
/// target that the file does not name.
pub open spec fn lacks_isa(
    tests: Seq<SubTest>,
    order: Seq<usize>,
    isa_spec: IsaSpec,
    p: int,
) -> bool {
    &&& isa_spec is Settings
    &&& 0 <= p < order.len()
    &&& tests[order[p] as int].needs_isa()
    &&& forall|q: int| 0 <= q < p ==> !tests[#[trigger] order[q] as int].needs_isa()
}

/// What is reported of a test called `name` that has no target to run for.
pub open spec fn requires_isa_message(name: Seq<char>) -> Seq<char> {
    "test "@ + name + " requires an ISA"@
}

/// The name under which a test on a function is reported: the name of the
/// test, and the name of the function in round brackets.
pub open spec fn spec_test_name(test: Seq<char>, function: Seq<char>) -> Seq<char> {
    test + seq!['('] + function + seq![')']
}

/// What is reported when the test called `name` fails with `error`.
pub open spec fn spec_test_failure(name: Seq<char>, error: Seq<char>) -> Seq<char> {
    name + seq![':', ' '] + error
}

/// What has been decided for the tests of one file.
#[derive(Debug)]
pub struct Plan {
    /// The order in which the tests run.
    pub order: Vec<usize>,
    /// The settings of the tests that need no target.
    pub flags: Flags,
    /// The runs to make on every function, in this order, but for the last
    /// one. None of them may keep the function.
    pub tuples: Vec<TestTuple>,
    /// The last run to make on every function. It may keep the function, so
    /// that a test that changes it, if it is the only one, needs no copy.
    pub last: TestTuple,
}

/// The key of a test.
fn key_of(test: &SubTest) -> (key: u8)
    ensures
        key == sort_key(*test),
{
    let mutating: u8 = if test.is_mutating() {
        2
    } else {
        0
    };
    let verifier: u8 = if test.needs_verifier() {
        1
    } else {
        0
    };
    mutating + verifier
}

/// Adds to `order` the places of the tests with the key `key`.
fn push_with_key(tests: &Vec<SubTest>, key: u8, order: &mut Vec<usize>)
    ensures
        final(order)@ == old(order)@ + with_key(tests@, key as nat, tests@.len()),
{
    let ghost before = order@;
    let mut i: usize = 0;
    while i < tests.len()
        invariant
            i <= tests.len(),
            order@ == before + with_key(tests@, key as nat, i as nat),
        decreases tests.len() - i,
    {
        if key_of(&tests[i]) == key {
            order.push(i);
        }
        i += 1;
    }
}

/// The order in which the tests run: the places of the tests, sorted by
/// key, with tests of the same key left in the order of the file.
pub fn sort_tests(tests: &Vec<SubTest>) -> (order: Vec<usize>)
    ensures
        order@ == run_order(tests@),
        is_run_order(tests@, order@),
{
    let mut order: Vec<usize> = Vec::new();
    push_with_key(tests, 0, &mut order);
    push_with_key(tests, 1, &mut order);
    push_with_key(tests, 2, &mut order);
    push_with_key(tests, 3, &mut order);
    proof {
        assert(tests@.len() == tests.len());
        lemma_run_order(tests@);
    }
    order
}

/// The message about a test called `name` that has no target to run for.
fn requires_isa(name: &str) -> (msg: String)
    ensures
        msg@ == requires_isa_message(name@),
{
    let mut msg = String::from_str("test ");
    msg.append(name);
    msg.append(" requires an ISA");
    msg
}

/// The runs of the tests listed in `order`, which holds places of `tests`.
///
/// This fails where a test needs a target and the file names none, and
/// names the first such test.
pub fn test_tuples(
    tests: &Vec<SubTest>,
    order: &Vec<usize>,
    isa_spec: &IsaSpec,
    no_isa_flags: Flags,
) -> (r: Result<Vec<TestTuple>, String>)
    requires
        forall|p: int| 0 <= p < order.len() ==> (#[trigger] order[p]) < tests.len(),
    ensures
        match r {
            Ok(tuples) => {
                &&& forall|p: int| !lacks_isa(tests@, order@, *isa_spec, p)
                &&& tuples@ == tuples_of_tests(tests@, order@, *isa_spec, no_isa_flags)
            },
            Err(msg) => exists|p: int|
                lacks_isa(tests@, order@, *isa_spec, p) && msg@ == requires_isa_message(
                    tests@[order@[p] as int].spec_name(),
                ),
        },
{
    let mut out: Vec<TestTuple> = Vec::new();
    let mut p: usize = 0;
    while p < order.len()
        invariant
            p <= order.len(),
            forall|q: int| 0 <= q < order.len() ==> (#[trigger] order[q]) < tests.len(),
            forall|q: int|
                0 <= q < p ==> !(*isa_spec is Settings && tests@[#[trigger] order@[q] as int]
                    .needs_isa()),
            out@ == tuples_of_tests(tests@, order@.take(p as int), *isa_spec, no_isa_flags),
        decreases order.len() - p,
    {
        let i = order[p];
        let test = &tests[i];
        let ghost base = out@;
        proof {
            assert(order@.take(p + 1).drop_last() =~= order@.take(p as int));
            assert(order@.take(p + 1).last() == i);
        }
        if test.needs_isa() {
            match isa_spec {
                IsaSpec::Settings(_) => {
                    proof {
                        assert(lacks_isa(tests@, order@, *isa_spec, p as int));
                    }
                    return Err(requires_isa(test.name()));
                },
                IsaSpec::Targets(isas) => {
                    let mut k: usize = 0;
                    while k < isas.len()
                        invariant
                            k <= isas.len(),
                            isas@ == isa_spec.targets(),
                            out@ == base + Seq::new(
                                k as nat,
                                |j: int|
                                    TestTuple {
                                        test: i,
                                        flags: isa_spec.targets()[j].flags(),
                                        isa: Some(j as usize),
                                    },
                            ),
                        decreases isas.len() - k,
                    {
                        out.push(TestTuple { test: i, flags: isas[k].flags(), isa: Some(k) });
                        k += 1;
                    }
                    assert(out@ =~= base + tuples_of_test(*isa_spec, no_isa_flags, i, true));
                },
            }
        } else {
            out.push(TestTuple { test: i, flags: no_isa_flags, isa: isa_spec.unique_isa() });
            assert(out@ =~= base + tuples_of_test(*isa_spec, no_isa_flags, i, false));
        }
        p += 1;
    }
    proof {
        assert(order@.take(p as int) =~= order@);
    }
    Ok(out)
}

/// Whether there is anything to test. A file without a function is not a
/// test file.
pub fn check_functions(functions: usize) -> (r: Result<(), String>)
    ensures
        functions > 0 ==> r is Ok,
        functions == 0 ==> (r matches Err(msg) && msg@ == "no functions found"@),
{
    if functions == 0 {
        Err(String::from_str("no functions found"))
    } else {
        Ok(())
    }
}

/// Decides on the runs to make for the tests of a file, which are the same
/// for every function of the file.
///
/// This fails where a test needs a target and the file names none, and
/// where no run is left to make. A file that names targets names at least
/// one.
pub fn plan(tests: &Vec<SubTest>, isa_spec: &IsaSpec) -> (r: Result<Plan, String>)
    requires
        *isa_spec is Targets ==> isa_spec.targets().len() > 0,
    ensures
        match r {
            Ok(plan) => {
                &&& plan.order@ == run_order(tests@)
                &&& plan.flags == isa_spec.no_isa_flags()
                &&& forall|p: int| !lacks_isa(tests@, run_order(tests@), *isa_spec, p)
                &&& plan.tuples@.push(plan.last) == tuples_of_tests(
                    tests@,
                    run_order(tests@),
                    *isa_spec,
                    isa_spec.no_isa_flags(),
                )
            },
            Err(msg) => {
                ||| exists|p: int|
                    lacks_isa(tests@, run_order(tests@), *isa_spec, p) && msg@
                        == requires_isa_message(tests@[run_order(tests@)[p] as int].spec_name())
                ||| {
                    &&& forall|p: int| !lacks_isa(tests@, run_order(tests@), *isa_spec, p)
                    &&& tuples_of_tests(
                        tests@,
                        run_order(tests@),
                        *isa_spec,
                        isa_spec.no_isa_flags(),
                    ).len() == 0
                    &&& msg@ == "no test commands found"@
                }
            },
        },
{
    let flags = isa_spec.no_isa_flags();
    let order = sort_tests(tests);
    match test_tuples(tests, &order, isa_spec, flags) {
        Err(msg) => Err(msg),
        Ok(tuples) => {
            let mut tuples = tuples;
            let ghost all = tuples@;
            match tuples.pop() {
                None => Err(String::from_str("no test commands found")),
                Some(last) => {
                    assert(tuples@.push(last) =~= all);
                    Ok(Plan { order, flags, tuples, last })
                },
            }
        },
    }
}

/// The name under which the test `test` on the function called `function`
/// is reported.
pub fn test_name(test: &SubTest, function: &str) -> (name: String)
    ensures
        name@ == spec_test_name(test.spec_name(), function@),
{
    proof {
        reveal_strlit("(");
        reveal_strlit(")");
        assert("("@ =~= seq!['(']);
        assert(")"@ =~= seq![')']);
    }
    let mut name = String::from_str(test.name());
    name.append("(");
    name.append(function);
    name.append(")");
    name
}

/// What is reported when the test called `name` fails with `error`.
pub fn test_failure(name: &str, error: &str) -> (msg: String)
    ensures
        msg@ == spec_test_failure(name@, error@),
{
    proof {
        reveal_strlit(": ");
        assert(": "@ =~= seq![':', ' ']);
    }
    let mut msg = String::from_str(name);
    msg.append(": ");
    msg.append(error);
    msg
}

/// Prepares the context for one run of `test`, and says whether the
/// function has to go through the verifier first: that is so where the test
/// needs it and no earlier test on this function has had it done.
pub fn run_one_test(tuple: TestTuple, test: &SubTest, context: &mut Context) -> (verify: bool)
    ensures
        *final(context) == (Context {
            verified: old(context).verified,
            flags: tuple.flags,
            isa: tuple.isa,
        }),
        verify == (!old(context).verified && test.needs_verifier()),
{
    context.flags = tuple.flags;
    context.isa = tuple.isa;
    !context.verified && test.needs_verifier()
}

/// Every place below `n` with the key is listed, and nothing else; the
/// list rises.
proof fn lemma_with_key(tests: Seq<SubTest>, key: nat, n: nat)
    requires
        n <= tests.len() <= usize::MAX,
    ensures
        forall|p: int|
            0 <= p < with_key(tests, key, n).len() ==> {
                let i = #[trigger] with_key(tests, key, n)[p];
                i < n && sort_key(tests[i as int]) == key
            },
        forall|p: int, q: int|
            0 <= p < q < with_key(tests, key, n).len() ==> (#[trigger] with_key(tests, key, n)[p])
                < #[trigger] with_key(tests, key, n)[q],
        forall|i: int|
            0 <= i < n && sort_key(tests[i]) == key ==> #[trigger] lists(
                with_key(tests, key, n),
                i,
            ),
    decreases n,
{
    if n > 0 {
        let m = (n - 1) as nat;
        lemma_with_key(tests, key, m);
        let before = with_key(tests, key, m);
        let now = with_key(tests, key, n);
        assert forall|i: int| 0 <= i < n && sort_key(tests[i]) == key implies #[trigger] lists(
            now,
            i,
        ) by {
            if i < m {
                assert(lists(before, i));
                let p = choose|p: int| 0 <= p < before.len() && #[trigger] before[p] == i;
                assert(now[p] == i);
            } else {
                assert(now[now.len() - 1] == i);
            }
        }
    }
}

/// The tests of all keys together are all the tests.
proof fn lemma_with_key_len(tests: Seq<SubTest>, n: nat)
    requires
        n <= tests.len(),
    ensures
        with_key(tests, 0, n).len() + with_key(tests, 1, n).len() + with_key(tests, 2, n).len()
            + with_key(tests, 3, n).len() == n,
    decreases n,
{
    if n > 0 {
        lemma_with_key_len(tests, (n - 1) as nat);
    }
}

/// The order in which the tests run is the one that a stable sort by key
/// gives.
pub proof fn lemma_run_order(tests: Seq<SubTest>)
    requires
        tests.len() <= usize::MAX,
    ensures
        is_run_order(tests, run_order(tests)),
{
    let n = tests.len();
    let k0 = with_key(tests, 0, n);
    let k1 = with_key(tests, 1, n);
    let k2 = with_key(tests, 2, n);
    let k3 = with_key(tests, 3, n);
    let order = run_order(tests);
    lemma_with_key(tests, 0, n);
    lemma_with_key(tests, 1, n);
    lemma_with_key(tests, 2, n);
    lemma_with_key(tests, 3, n);
    lemma_with_key_len(tests, n);
    assert forall|p: int| 0 <= p < order.len() implies (#[trigger] order[p]) < tests.len() by {
        lemma_run_order_at(tests, p);
    }
    assert forall|i: int| 0 <= i < tests.len() implies #[trigger] lists(order, i) by {
        let key = sort_key(tests[i]);
        assert(lists(with_key(tests, key, n), i));
        if key == 0 {
            let p = choose|p: int| 0 <= p < k0.len() && #[trigger] k0[p] == i;
            assert(order[p] == i);
        } else if key == 1 {
            let p = choose|p: int| 0 <= p < k1.len() && #[trigger] k1[p] == i;
            assert(order[k0.len() + p] == i);
        } else if key == 2 {
            let p = choose|p: int| 0 <= p < k2.len() && #[trigger] k2[p] == i;
            assert(order[k0.len() + k1.len() + p] == i);
        } else {
            let p = choose|p: int| 0 <= p < k3.len() && #[trigger] k3[p] == i;
            assert(order[k0.len() + k1.len() + k2.len() + p] == i);
        }
    }
    assert forall|p: int, q: int| 0 <= p < q < order.len() implies runs_before(
        tests,
        #[trigger] order[p] as int,
        #[trigger] order[q] as int,
    ) by {
        lemma_run_order_at(tests, p);
        lemma_run_order_at(tests, q);
    }
}

/// Where the entry at place `p` of the run order comes from: from the list
/// of its key, and the lists of the smaller keys are what stands before it.
proof fn lemma_run_order_at(tests: Seq<SubTest>, p: int)
    requires
        tests.len() <= usize::MAX,
        0 <= p < run_order(tests).len(),
    ensures
        ({
            let n = tests.len();
            let key = sort_key(tests[run_order(tests)[p] as int]);
            let start = if key == 0 {
                0
            } else if key == 1 {
                with_key(tests, 0, n).len()
            } else if key == 2 {
                with_key(tests, 0, n).len() + with_key(tests, 1, n).len()
            } else {
                with_key(tests, 0, n).len() + with_key(tests, 1, n).len() + with_key(
                    tests,
                    2,
                    n,
                ).len()
            };
            &&& key <= 3
            &&& run_order(tests)[p] < n
            &&& start <= p < start + with_key(tests, key, n).len()
            &&& run_order(tests)[p] == with_key(tests, key, n)[p - start]
        }),
{
    let n = tests.len();
    lemma_with_key(tests, 0, n);
    lemma_with_key(tests, 1, n);
    lemma_with_key(tests, 2, n);
    lemma_with_key(tests, 3, n);
    let k0 = with_key(tests, 0, n);
    let k1 = with_key(tests, 1, n);
    let k2 = with_key(tests, 2, n);
    let k3 = with_key(tests, 3, n);
    if p < k0.len() {
        assert(run_order(tests)[p] == k0[p]);
    } else if p < k0.len() + k1.len() {
        assert(run_order(tests)[p] == k1[p - k0.len()]);
    } else if p < k0.len() + k1.len() + k2.len() {
        assert(run_order(tests)[p] == k2[p - k0.len() - k1.len()]);
    } else {
        assert(run_order(tests)[p] == k3[p - k0.len() - k1.len() - k2.len()]);
    }
}

/// Every run is of a test of the file, and for a target of the file where
/// it is for a target at all.
pub proof fn lemma_tuples_in_range(
    tests: Seq<SubTest>,
    order: Seq<usize>,
    isa_spec: IsaSpec,
    no_isa_flags: Flags,
    t: int,
)
    requires
        isa_spec.targets().len() <= usize::MAX,
        forall|p: int| 0 <= p < order.len() ==> (#[trigger] order[p]) < tests.len(),
        0 <= t < tuples_of_tests(tests, order, isa_spec, no_isa_flags).len(),
    ensures
        ({
            let tuple = tuples_of_tests(tests, order, isa_spec, no_isa_flags)[t];
            &&& tuple.test < tests.len()
            &&& tuple.isa matches Some(k) ==> k < isa_spec.targets().len()
        }),
    decreases order.len(),
{
    if order.len() > 0 {
        let before = tuples_of_tests(tests, order.drop_last(), isa_spec, no_isa_flags);
        if t < before.len() {
            lemma_tuples_in_range(tests, order.drop_last(), isa_spec, no_isa_flags, t);
        }
    }
}

/// Tests that change the function run at the end, and among the tests that
/// leave it alone those that do without the verifier run at the front.
pub proof fn lemma_mutating_tests_run_last(tests: Seq<SubTest>, p: int, q: int)
    requires
        tests.len() <= usize::MAX,
        0 <= p <= q < tests.len(),
    ensures
        tests[run_order(tests)[p] as int].is_mutating() ==> tests[run_order(
            tests,
        )[q] as int].is_mutating(),
        tests[run_order(tests)[p] as int].needs_verifier() && !tests[run_order(
            tests,
        )[q] as int].is_mutating() ==> tests[run_order(tests)[q] as int].needs_verifier(),
{
    lemma_run_order(tests);
    let order = run_order(tests);
    if p < q {
        assert(runs_before(tests, order[p] as int, order[q] as int));
    }
}

/// There is only one order in which the tests can run.
pub proof fn lemma_run_order_unique(tests: Seq<SubTest>, order: Seq<usize>)
    requires
        tests.len() <= usize::MAX,
        is_run_order(tests, order),
    ensures
        order == run_order(tests),
{
    let other = run_order(tests);
    lemma_run_order(tests);
    assert forall|p: int| 0 <= p < order.len() implies order[p] == other[p] by {
        lemma_same_order(tests, order, other, p);
    }
    assert(order =~= other);
}

/// Two orders of the same tests agree at every place.
proof fn lemma_same_order(tests: Seq<SubTest>, a: Seq<usize>, b: Seq<usize>, p: int)
    requires
        is_run_order(tests, a),
        is_run_order(tests, b),
        0 <= p < tests.len(),
    ensures
        a[p] == b[p],
    decreases p,
{
    assert forall|r: int| 0 <= r < p implies a[r] == b[r] by {
        lemma_same_order(tests, a, b, r);
    }
    if a[p] != b[p] {
        assert(lists(b, a[p] as int));
        assert(lists(a, b[p] as int));
        let qa = choose|q: int| 0 <= q < b.len() && #[trigger] b[q] == a[p] as int;
        let qb = choose|q: int| 0 <= q < a.len() && #[trigger] a[q] == b[p] as int;
        if qa < p {
            assert(a[qa] == b[qa]);
            assert(runs_before(tests, a[qa] as int, a[p] as int));
        } else if qb < p {
            assert(a[qb] == b[qb]);
            assert(runs_before(tests, b[qb] as int, b[p] as int));
        } else {
            assert(runs_before(tests, b[p] as int, b[qa] as int));
            assert(runs_before(tests, a[p] as int, a[qb] as int));
        }
    }
}

} // verus!
