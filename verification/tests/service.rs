use capability_handles::function_as_service::StubLife;
use capability_handles::function_as_service::meaning_message;
use capability_handles::function_as_service::run_meaning_of_life;

// The number provided to `run_meaning_of_life` does not matter in these
// tests: the result is controlled entirely through the `StubLife` double.

#[test]
fn we_get_a_happy_result_if_we_guess_the_correct_meaning_of_life() {
    // Given that the correct meaning of life is provided
    let service = StubLife::default().always_correct();

    // When we check the meaning
    let result = run_meaning_of_life(service, 0);

    // Then we get a happy result
    assert_eq!(&result, "yay!");
}

#[test]
fn we_get_a_sad_result_if_we_guess_the_wrong_meaning_of_life() {
    // Given that the wrong meaning of life is provided
    let service = StubLife::default().always_wrong();

    // When we check the meaning
    let result = run_meaning_of_life(service, 0);

    // Then we have a sad result
    assert_eq!(&result, ":frown:");
}

#[test]
fn the_double_decides_even_on_the_magic_number() {
    // A double fixed to failure keeps deciding even where the real check
    // would succeed: the mapped result reflects the double's answer, which
    // shows the real check is never consulted on the test path.
    let service = StubLife::default().always_wrong();

    let result = run_meaning_of_life(service, 42);

    assert_eq!(&result, ":frown:");
}

#[test]
fn the_message_mapping_is_exact() {
    assert_eq!(&meaning_message(true), "yay!");
    assert_eq!(&meaning_message(false), ":frown:");
}

#[test]
fn the_default_double_reports_failure() {
    let service = StubLife::default();

    let result = run_meaning_of_life(service, 0);

    assert_eq!(&result, ":frown:");
}
