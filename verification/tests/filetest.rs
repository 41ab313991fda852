use cretonne::filetest::runone::{
    check_functions, plan, run_one_test, sort_tests, test_failure, test_name, test_tuples, IsaSpec,
    TestTuple,
};
use cretonne::filetest::subtest::{Context, SubTest};
use cretonne::isa::TargetIsa;
use cretonne::settings::Flags;

fn test(name: &str, needs_verifier: bool, is_mutating: bool, needs_isa: bool) -> SubTest {
    SubTest::new(name.to_string(), needs_verifier, is_mutating, needs_isa)
}

fn isa(name: &str, enable_verifier: bool) -> TargetIsa {
    TargetIsa::new(name.to_string(), Flags::new(enable_verifier))
}

fn on() -> Flags {
    Flags::new(true)
}

fn off() -> Flags {
    Flags::new(false)
}

#[test]
fn subtest_keeps_what_it_was_made_with() {
    let t = test("legalizer", true, true, true);
    assert_eq!(t.name(), "legalizer");
    assert!(t.needs_verifier());
    assert!(t.is_mutating());
    assert!(t.needs_isa());
    let t = test("cat", false, false, false);
    assert_eq!(t.name(), "cat");
    assert!(!t.needs_verifier());
    assert!(!t.is_mutating());
    assert!(!t.needs_isa());
}

#[test]
fn no_functions_found() {
    assert_eq!(check_functions(0), Err("no functions found".to_string()));
    assert_eq!(check_functions(1), Ok(()));
    assert_eq!(check_functions(25), Ok(()));
}

#[test]
fn mutating_tests_run_last() {
    let tests = vec![
        test("legalizer", true, true, true),
        test("cat", false, false, false),
        test("verifier", true, false, false),
        test("domtree", false, false, false),
    ];
    assert_eq!(sort_tests(&tests), vec![1, 3, 2, 0]);
}

#[test]
fn sort_is_by_mutating_then_verifier() {
    let tests = vec![
        test("d", true, true, false),
        test("c", false, true, false),
        test("b", true, false, false),
        test("a", false, false, false),
    ];
    assert_eq!(sort_tests(&tests), vec![3, 2, 1, 0]);
}

#[test]
fn sort_is_stable() {
    let tests = vec![
        test("a", true, false, false),
        test("b", true, true, false),
        test("c", true, false, true),
        test("d", true, true, true),
        test("e", true, false, false),
    ];
    assert_eq!(sort_tests(&tests), vec![0, 2, 4, 1, 3]);
    let same = vec![
        test("x", false, false, false),
        test("y", false, false, true),
        test("z", false, false, false),
    ];
    assert_eq!(sort_tests(&same), vec![0, 1, 2]);
    assert_eq!(sort_tests(&Vec::new()), Vec::<usize>::new());
}

#[test]
fn sort_agrees_with_std() {
    let mut tests = Vec::new();
    let mut seed: u32 = 12345;
    for i in 0..40 {
        seed = seed.wrapping_mul(1103515245).wrapping_add(12345);
        let bits = seed >> 16;
        tests.push(test(&format!("t{}", i), bits & 1 != 0, bits & 2 != 0, bits & 4 != 0));
    }
    let mut expected: Vec<usize> = (0..tests.len()).collect();
    expected.sort_by_key(|&i| (tests[i].is_mutating(), tests[i].needs_verifier()));
    assert_eq!(sort_tests(&tests), expected);
}

#[test]
fn unique_isa_is_the_only_one() {
    assert_eq!(IsaSpec::Settings(on()).unique_isa(), None);
    assert_eq!(IsaSpec::Targets(vec![]).unique_isa(), None);
    assert_eq!(IsaSpec::Targets(vec![isa("riscv", true)]).unique_isa(), Some(0));
    assert_eq!(
        IsaSpec::Targets(vec![isa("riscv", true), isa("intel", true)]).unique_isa(),
        None
    );
}

#[test]
fn no_isa_flags_are_those_of_the_last_target() {
    assert_eq!(IsaSpec::Settings(on()).no_isa_flags(), on());
    assert_eq!(IsaSpec::Settings(off()).no_isa_flags(), off());
    assert_eq!(
        IsaSpec::Targets(vec![isa("riscv", true), isa("intel", false)]).no_isa_flags(),
        off()
    );
    assert_eq!(
        IsaSpec::Targets(vec![isa("riscv", false), isa("intel", true)]).no_isa_flags(),
        on()
    );
}

#[test]
fn one_tuple_for_a_test_without_target() {
    let tests = vec![test("cat", false, false, false)];
    let order = vec![0];
    assert_eq!(
        test_tuples(&tests, &order, &IsaSpec::Settings(off()), off()),
        Ok(vec![TestTuple {
            test: 0,
            flags: off(),
            isa: None
        }])
    );
    let one = IsaSpec::Targets(vec![isa("riscv", true)]);
    assert_eq!(
        test_tuples(&tests, &order, &one, off()),
        Ok(vec![TestTuple {
            test: 0,
            flags: off(),
            isa: Some(0)
        }])
    );
    let two = IsaSpec::Targets(vec![isa("riscv", true), isa("intel", true)]);
    assert_eq!(
        test_tuples(&tests, &order, &two, on()),
        Ok(vec![TestTuple {
            test: 0,
            flags: on(),
            isa: None
        }])
    );
}

#[test]
fn one_tuple_for_every_target() {
    let tests = vec![
        test("cat", false, false, false),
        test("binemit", true, false, true),
    ];
    let order = vec![1, 0];
    let spec = IsaSpec::Targets(vec![isa("riscv", true), isa("intel", false)]);
    assert_eq!(
        test_tuples(&tests, &order, &spec, off()),
        Ok(vec![
            TestTuple {
                test: 1,
                flags: on(),
                isa: Some(0)
            },
            TestTuple {
                test: 1,
                flags: off(),
                isa: Some(1)
            },
            TestTuple {
                test: 0,
                flags: off(),
                isa: None
            },
        ])
    );
}

#[test]
fn test_requires_an_isa() {
    let tests = vec![
        test("cat", false, false, false),
        test("binemit", true, false, true),
        test("legalizer", true, true, true),
    ];
    let spec = IsaSpec::Settings(on());
    assert_eq!(
        test_tuples(&tests, &vec![0, 1, 2], &spec, on()),
        Err("test binemit requires an ISA".to_string())
    );
    assert_eq!(
        test_tuples(&tests, &vec![2, 1, 0], &spec, on()),
        Err("test legalizer requires an ISA".to_string())
    );
    assert_eq!(
        test_tuples(&tests, &vec![0], &spec, on()),
        Ok(vec![TestTuple {
            test: 0,
            flags: on(),
            isa: None
        }])
    );
}

#[test]
fn empty_target_list_gives_no_tuple() {
    let tests = vec![test("binemit", true, false, true)];
    assert_eq!(
        test_tuples(&tests, &vec![0], &IsaSpec::Targets(vec![]), on()),
        Ok(vec![])
    );
}

#[test]
fn plan_of_a_test_file() {
    let tests = vec![
        test("legalizer", true, true, true),
        test("cat", false, false, false),
        test("verifier", true, false, false),
    ];
    let spec = IsaSpec::Targets(vec![isa("riscv", true), isa("intel", false)]);
    let plan = plan(&tests, &spec).unwrap();
    assert_eq!(plan.order, vec![1, 2, 0]);
    assert_eq!(plan.flags, off());
    assert_eq!(
        plan.tuples,
        vec![
            TestTuple {
                test: 1,
                flags: off(),
                isa: None
            },
            TestTuple {
                test: 2,
                flags: off(),
                isa: None
            },
            TestTuple {
                test: 0,
                flags: on(),
                isa: Some(0)
            },
        ]
    );
    assert_eq!(
        plan.last,
        TestTuple {
            test: 0,
            flags: off(),
            isa: Some(1)
        }
    );
}

#[test]
fn plan_with_a_single_test() {
    let tests = vec![test("legalizer", true, true, false)];
    let plan = plan(&tests, &IsaSpec::Settings(on())).unwrap();
    assert_eq!(plan.order, vec![0]);
    assert_eq!(plan.flags, on());
    assert!(plan.tuples.is_empty());
    assert_eq!(
        plan.last,
        TestTuple {
            test: 0,
            flags: on(),
            isa: None
        }
    );
}

#[test]
fn no_test_commands_found() {
    let err = plan(&Vec::new(), &IsaSpec::Settings(on())).unwrap_err();
    assert_eq!(err, "no test commands found");
    let err = plan(&Vec::new(), &IsaSpec::Targets(vec![isa("riscv", true)])).unwrap_err();
    assert_eq!(err, "no test commands found");
}

#[test]
fn plan_names_the_first_test_without_target() {
    let tests = vec![
        test("legalizer", true, true, true),
        test("binemit", true, false, true),
        test("cat", false, false, false),
    ];
    let err = plan(&tests, &IsaSpec::Settings(on())).unwrap_err();
    assert_eq!(err, "test binemit requires an ISA");
}

#[test]
fn name_of_a_test_on_a_function() {
    let t = test("verifier", true, false, false);
    assert_eq!(test_name(&t, "%foo"), "verifier(%foo)");
    assert_eq!(test_name(&t, ""), "verifier()");
    assert_eq!(
        test_failure("verifier(%foo)", "inst7: missing terminator"),
        "verifier(%foo): inst7: missing terminator"
    );
    assert_eq!(test_failure("", ""), ": ");
}

#[test]
fn verifier_runs_once_for_a_function() {
    let needs = test("verifier", true, false, false);
    let does_not = test("cat", false, false, false);
    let tuple = TestTuple {
        test: 0,
        flags: off(),
        isa: Some(1),
    };
    let mut context = Context::new(on());
    assert_eq!(
        context,
        Context {
            verified: false,
            flags: on(),
            isa: None
        }
    );

    assert!(!run_one_test(tuple, &does_not, &mut context));
    assert_eq!(
        context,
        Context {
            verified: false,
            flags: off(),
            isa: Some(1)
        }
    );

    assert!(run_one_test(tuple, &needs, &mut context));
    assert!(!context.verified);
    context.set_verified();
    assert_eq!(
        context,
        Context {
            verified: true,
            flags: off(),
            isa: Some(1)
        }
    );

    let second = TestTuple {
        test: 1,
        flags: on(),
        isa: None,
    };
    assert!(!run_one_test(second, &needs, &mut context));
    assert_eq!(
        context,
        Context {
            verified: true,
            flags: on(),
            isa: None
        }
    );
    assert!(!run_one_test(second, &does_not, &mut context));
}
