use token_airdrop::driver::{decide, prompt, Decision, Driver};

#[test]
fn prompt_names_the_file() {
    assert_eq!(prompt("drop1.json"), "Processing drop1.json ~ Continue [y/n]?\n");
    assert_eq!(prompt(""), "Processing  ~ Continue [y/n]?\n");
}

#[test]
fn an_answer_that_begins_with_n_skips() {
    assert_eq!(decide("n"), Decision::Skip);
    assert_eq!(decide("N"), Decision::Skip);
    assert_eq!(decide("n\n"), Decision::Skip);
    assert_eq!(decide("no\n"), Decision::Skip);
    assert_eq!(decide("Never mind\n"), Decision::Skip);
}

#[test]
fn any_other_answer_processes() {
    assert_eq!(decide("y\n"), Decision::Process);
    assert_eq!(decide("Y"), Decision::Process);
    assert_eq!(decide(""), Decision::Process);
    assert_eq!(decide("\n"), Decision::Process);
    assert_eq!(decide(" n"), Decision::Process);
    assert_eq!(decide("yes, not no"), Decision::Process);
    assert_eq!(decide("\u{144}"), Decision::Process);
}

#[test]
fn a_round_visits_each_file_once_in_order() {
    let files = vec!["a.json".to_string(), "b.json".to_string(), "c.json".to_string()];
    let driver = Driver::new(files);
    assert_eq!(driver.current(), Some(&"a.json".to_string()));
    let (driver, decision) = driver.answer("y\n");
    assert_eq!(decision, Some(Decision::Process));
    assert_eq!(driver.current(), Some(&"b.json".to_string()));
    let (driver, decision) = driver.answer("n\n");
    assert_eq!(decision, Some(Decision::Skip));
    assert_eq!(driver.current(), Some(&"c.json".to_string()));
    let (driver, decision) = driver.answer("\n");
    assert_eq!(decision, Some(Decision::Process));
    assert_eq!(driver.current(), None);
    let (driver, decision) = driver.answer("y\n");
    assert_eq!(decision, None);
    assert_eq!(driver.current(), None);
}

#[test]
fn a_round_over_no_files_is_over_at_once() {
    let driver = Driver::new(Vec::new());
    assert_eq!(driver.current(), None);
    let (driver, decision) = driver.answer("y");
    assert_eq!(decision, None);
    assert_eq!(driver.current(), None);
}
