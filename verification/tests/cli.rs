use lessons::cli::{runner, Args, Commands, Implementation};

#[test]
fn runner_hands_on_success_and_failure() {
    let ok: Result<u8, String> = runner(|| Ok(3));
    assert_eq!(ok, Ok(3));
    let err: Result<u8, String> = runner(|| Err(String::from("no")));
    assert_eq!(err, Err(String::from("no")));
}

#[test]
fn runner_calls_once() {
    let mut calls = 0;
    let outcome: Result<(), ()> = runner(|| {
        calls += 1;
        Ok(())
    });
    assert_eq!(outcome, Ok(()));
    assert_eq!(calls, 1);
}

#[test]
fn args_hold_a_command() {
    let args = Args {
        command: Some(Commands::TypeState),
    };
    assert_eq!(args.command, Some(Commands::TypeState));
    assert_ne!(args.command, Some(Commands::Builder));
}

#[test]
fn implementations_are_named() {
    assert_eq!(Implementation::parse("default"), Ok(Implementation::Default));
    assert_eq!(
        Implementation::parse("dispatch"),
        Ok(Implementation::Dispatch)
    );
    assert_eq!("dispatch".parse(), Ok(Implementation::Dispatch));
}

#[test]
fn other_names_are_refused() {
    assert_eq!(
        Implementation::parse("Default"),
        Err(String::from("unknown implementation Default"))
    );
    assert_eq!(
        "".parse::<Implementation>(),
        Err(String::from("unknown implementation "))
    );
}
