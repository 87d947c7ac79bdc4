use vibes::haptics::tap;

#[test]
fn tap_reaches_the_platform() {
    tap();
}
