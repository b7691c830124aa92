use docker_client::process::{parse_processes, Top};

fn strings(items: &[&str]) -> Vec<String> {
    items.iter().map(|s| String::from(*s)).collect()
}

#[test]
fn columns_map_to_the_fields_their_titles_name() {
    let top = Top {
        titles: strings(&["UID", "PID", "%CPU", "TTY", "TIME", "CMD"]),
        processes: vec![strings(&["root", "1", "0.1", "?", "00:00:01", "sleep 100"])],
    };
    let ps = parse_processes(&top);
    assert_eq!(ps.len(), 1);
    assert_eq!(ps[0].user, "root");
    assert_eq!(ps[0].pid, "1");
    assert_eq!(ps[0].cpu.as_deref(), Some("0.1"));
    assert_eq!(ps[0].tty.as_deref(), Some("?"));
    assert_eq!(ps[0].time.as_deref(), Some("00:00:01"));
    assert_eq!(ps[0].command, "sleep 100");
    assert_eq!(ps[0].memory, None);
    assert_eq!(ps[0].stat, None);
}

#[test]
fn user_and_command_accept_both_title_spellings() {
    let top = Top {
        titles: strings(&["USER", "COMMAND", "STIME"]),
        processes: vec![strings(&["daemon", "nginx", "12:00"])],
    };
    let ps = parse_processes(&top);
    assert_eq!(ps[0].user, "daemon");
    assert_eq!(ps[0].command, "nginx");
    assert_eq!(ps[0].start.as_deref(), Some("12:00"));
}

#[test]
fn unknown_titles_are_ignored() {
    let top = Top {
        titles: strings(&["WCHAN", "PID"]),
        processes: vec![strings(&["futex", "42"])],
    };
    let ps = parse_processes(&top);
    assert_eq!(ps[0].pid, "42");
    assert_eq!(ps[0].user, "");
    assert_eq!(ps[0].command, "");
}

#[test]
fn each_row_becomes_one_record() {
    let top = Top {
        titles: strings(&["PID"]),
        processes: vec![strings(&["1"]), strings(&["2"]), strings(&["3"])],
    };
    let ps = parse_processes(&top);
    assert_eq!(ps.len(), 3);
    assert_eq!(ps[0].pid, "1");
    assert_eq!(ps[1].pid, "2");
    assert_eq!(ps[2].pid, "3");
}

#[test]
fn a_row_narrower_than_the_titles_is_accepted() {
    let top = Top {
        titles: strings(&["UID", "PID", "CMD"]),
        processes: vec![strings(&["root"])],
    };
    let ps = parse_processes(&top);
    assert_eq!(ps[0].user, "root");
    assert_eq!(ps[0].pid, "");
}

#[test]
fn an_empty_listing_yields_no_records() {
    let top = Top {
        titles: strings(&["PID"]),
        processes: vec![],
    };
    assert!(parse_processes(&top).is_empty());
}
