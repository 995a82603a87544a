use actuator::{Actions, Command, Orientation};

fn command(program: &str, args: &[&str]) -> Command {
    Command { program: program.to_string(), args: args.iter().map(|a| a.to_string()).collect() }
}

#[test]
fn orientation_toggles() {
    let mut o = Orientation::new();
    assert!(!o.snapshot());
    o.toggle();
    assert!(o.snapshot());
    o.toggle_times(3);
    assert!(!o.snapshot());
    o.toggle_times(4);
    assert!(!o.snapshot());
    o.toggle_times(0);
    assert!(!o.snapshot());
    assert!(!Orientation::default().snapshot());
}

#[test]
fn actions_resolve_and_replace() {
    let mut a = Actions::new();
    assert!(a.resolve(&"1_up".to_string()).is_none());
    a.insert("1_up".to_string(), vec![command("echo", &["up"])]);
    a.insert("2_pinch".to_string(), vec![command("zoom", &["out"]), command("beep", &[])]);
    let up = a.resolve(&"1_up".to_string()).unwrap();
    assert_eq!(up.len(), 1);
    assert_eq!(up[0].program, "echo");
    assert_eq!(up[0].args, vec!["up".to_string()]);
    assert_eq!(a.resolve(&"2_pinch".to_string()).unwrap().len(), 2);
    a.insert("1_up".to_string(), vec![]);
    assert_eq!(a.actions.len(), 2);
    assert_eq!(a.resolve(&"1_up".to_string()).unwrap().len(), 0);
    assert!(a.resolve(&"3_up".to_string()).is_none());
    assert_eq!(a.find(&"2_pinch".to_string()), Some(1));
}
