use autocrop_bot::command::{command_text, Command};
use autocrop_bot::startup::Announce;

#[test]
fn help_lists_the_commands() {
    assert_eq!(
        command_text(Command::Help),
        "These commands are supported:\n\n/help — show this help text.\n/start — what this bot does."
    );
    assert_eq!(command_text(Command::Help), Command::descriptions());
}

#[test]
fn start_says_what_the_bot_does() {
    assert_eq!(
        command_text(Command::Start),
        "Send me a screenshot as a photo, video, GIF or file. I send back just the \
picture: no status bars, app chrome, black bars or meme text. Up to 20 MB."
    );
}

#[test]
fn registered_commands() {
    let expected = vec![
        ("/help".to_string(), "show this help text.".to_string()),
        ("/start".to_string(), "what this bot does.".to_string()),
    ];
    assert_eq!(Command::bot_commands(), expected);
    assert_eq!(Command::Help.entry().name, "help");
    assert_eq!(Command::Start.entry().prefix, "/");
}

#[test]
fn announcement_in_order() {
    let first = Announce::start();
    assert_eq!((first, first.text()), (Announce::Commands, None));
    let second = first.after(true);
    assert_eq!(second.text(), Some("Cuts screenshots down to the picture."));
    let third = second.after(true);
    assert_eq!(third.text().unwrap(), command_text(Command::Start));
    let fourth = third.after(true);
    assert_eq!((fourth, fourth.text()), (Announce::Name, Some("Autocrop")));
    assert_eq!(fourth.after(true), Announce::Published);
}

#[test]
fn only_the_name_may_fail() {
    assert_eq!(Announce::Name.after(false), Announce::Published);
    assert_eq!(Announce::Commands.after(false), Announce::Abandoned);
    assert_eq!(Announce::ShortDescription.after(false), Announce::Abandoned);
    assert_eq!(Announce::Description.after(false), Announce::Abandoned);
    assert_eq!(Announce::Abandoned.after(true), Announce::Abandoned);
    assert_eq!(Announce::Published.after(false), Announce::Published);
}
