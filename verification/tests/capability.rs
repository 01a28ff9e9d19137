use example_project::greeting;
use example_project::run_test;

#[test]
fn greeting_is_hello_world() {
    assert_eq!(greeting(), "Hello, World");
}

#[test]
fn greeting_line_is_exact() {
    let line = format!("{}\n", greeting());
    assert_eq!(line, "Hello, World\n");
}

#[test]
fn unit_satisfies_the_contract() {
    // Instantiating the generic consumer with the unit type compiles, which
    // is what conformance to the contract means; the unit conformer's
    // members stay uncalled, as they are stubs.
    let probe: fn() -> u32 = run_test::<()>;
    let _ = probe;
}
