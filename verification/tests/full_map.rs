use foxholewarbot::commands::rendering_message;

#[test]
fn the_message_names_the_shard_and_the_scale_of_the_job() {
    let message = rendering_message("Able", false, false);

    assert!(message.contains("Able"), "{message}");
    assert!(message.contains("53 regions"), "{message}");
    assert!(
        !message.contains("With the"),
        "nothing to name when both are off: {message}"
    );
}

#[test]
fn the_message_names_whichever_overlays_are_on() {
    assert!(rendering_message("Able", true, false).ends_with("With the frontline on."));
    assert!(rendering_message("Able", false, true).ends_with("With the territory tint on."));
    assert!(rendering_message("Able", true, true)
        .ends_with("With the frontline and territory tint on."));
}
