use rs_calc::command::{Command, CommandId, CommandUiList};

struct Counter {
    runs: u32,
}

impl Command for Counter {
    fn get_name(&self) -> String {
        "Counter".to_string()
    }

    fn get_icon(&self) -> String {
        "counter.png".to_string()
    }

    fn get_enable(&self) -> String {
        "true".to_string()
    }

    fn exec(&mut self) {
        self.runs += 1;
    }
}

#[test]
fn command_runs_through_trait() {
    let mut c = Counter { runs: 0 };
    let cmd: &mut dyn Command = &mut c;
    cmd.exec();
    cmd.exec();
    assert_eq!(cmd.get_name(), "Counter");
    assert_eq!(c.runs, 2);
}

#[test]
fn command_ui_layouts_hold_ids() {
    let layouts = vec![
        CommandUiList::Icon(CommandId(1)),
        CommandUiList::Block(CommandId(2)),
        CommandUiList::Multi(vec![CommandId(3), CommandId(4)]),
        CommandUiList::List([Some(CommandId(5)), None, Some(CommandId(6))]),
    ];
    match &layouts[2] {
        CommandUiList::Multi(ids) => assert_eq!(ids, &vec![CommandId(3), CommandId(4)]),
        _ => panic!("wrong layout"),
    }
    match &layouts[3] {
        CommandUiList::List(slots) => assert_eq!(slots[1], None),
        _ => panic!("wrong layout"),
    }
}
