use shecret::{
    create_command, dispatch_notice, issue_command, parse_command, run_commands,
    select_connections, Dispatch, Selection, ServerConnection, DEFAULT_SSH_COMMAND, SSH,
};

fn profile(id: u8, user: &str, ip: &str, key_path: &str, port: &str, alias: &str) -> ServerConnection {
    ServerConnection::new(
        id,
        user.to_string(),
        ip.to_string(),
        key_path.to_string(),
        port.to_string(),
        alias.to_string(),
    )
}

fn three() -> Vec<ServerConnection> {
    vec![
        profile(1, "root", "10.0.0.1", "/keys/a", "22", "web"),
        profile(2, "deploy", "10.0.0.2", "/keys/b", "2222", "db"),
        profile(3, "admin", "10.0.0.3", "/keys/c", "22", "web"),
    ]
}

#[test]
fn get_command_joins_the_fields() {
    let p = profile(1, "root", "10.0.0.1", "/keys/a", "22", "web");
    assert_eq!(p.get_command("ssh"), "ssh -i /keys/a -p 22 root@10.0.0.1");
    assert_eq!(p.get_command("sftp"), "sftp -i /keys/a -p 22 root@10.0.0.1");
    assert_eq!(p.get_command(""), " -i /keys/a -p 22 root@10.0.0.1");
}

#[test]
fn get_command_with_empty_fields() {
    let p = profile(0, "", "", "", "", "");
    assert_eq!(p.get_command("ssh"), "ssh -i  -p  @");
}

#[test]
fn constants_are_the_programs() {
    assert_eq!(SSH, "ssh");
    assert_eq!(DEFAULT_SSH_COMMAND, "hostname");
}

#[test]
fn create_command_appends_the_command() {
    let p = profile(1, "root", "10.0.0.1", "/keys/a", "22", "web");
    assert_eq!(create_command("uptime -p", &p), "ssh -i /keys/a -p 22 root@10.0.0.1 uptime -p");
    assert_eq!(create_command("", &p), "ssh -i /keys/a -p 22 root@10.0.0.1 ");
}

#[test]
fn select_all_keeps_the_order() {
    let records = three();
    let chosen = select_connections(&records, &Selection::All);
    let ids: Vec<u8> = chosen.iter().map(|r| r.id).collect();
    assert_eq!(ids, vec![1, 2, 3]);
}

#[test]
fn select_picked_goes_pick_by_pick() {
    let records = three();
    let chosen = select_connections(&records, &Selection::Picked(vec![1, 0]));
    let ids: Vec<u8> = chosen.iter().map(|r| r.id).collect();
    assert_eq!(ids, vec![2, 1]);
    let rising = select_connections(&records, &Selection::Picked(vec![0, 2]));
    let ids: Vec<u8> = rising.iter().map(|r| r.id).collect();
    assert_eq!(ids, vec![1, 3]);
}

#[test]
fn select_picked_takes_only_the_profile_picked() {
    let records = three();
    let chosen = select_connections(&records, &Selection::Picked(vec![2]));
    let ids: Vec<u8> = chosen.iter().map(|r| r.id).collect();
    assert_eq!(ids, vec![3]);
    assert_eq!(chosen[0].alias, "web");
    assert_eq!(chosen[0].ip, "10.0.0.3");
}

#[test]
fn select_picked_twice() {
    let records = three();
    let chosen = select_connections(&records, &Selection::Picked(vec![0, 0]));
    let ids: Vec<u8> = chosen.iter().map(|r| r.id).collect();
    assert_eq!(ids, vec![1, 1]);
}

#[test]
fn select_picked_skips_an_index_past_the_end() {
    let records = three();
    let chosen = select_connections(&records, &Selection::Picked(vec![3, 1, usize::MAX]));
    let ids: Vec<u8> = chosen.iter().map(|r| r.id).collect();
    assert_eq!(ids, vec![2]);
}

#[test]
fn select_nothing() {
    let records = three();
    assert!(select_connections(&records, &Selection::Picked(Vec::new())).is_empty());
    assert!(select_connections(&Vec::new(), &Selection::Picked(vec![0])).is_empty());
    assert!(select_connections(&Vec::new(), &Selection::All).is_empty());
}

fn pairs(batch: &[Dispatch]) -> Vec<(&str, &str)> {
    batch.iter().map(|entry| (entry.alias.as_str(), entry.command.as_str())).collect()
}

#[test]
fn issue_command_to_all() {
    let records = three();
    assert_eq!(
        pairs(&issue_command(&records, "hostname", &Selection::All)),
        vec![
            ("web", "ssh -i /keys/a -p 22 root@10.0.0.1 hostname"),
            ("db", "ssh -i /keys/b -p 2222 deploy@10.0.0.2 hostname"),
            ("web", "ssh -i /keys/c -p 22 admin@10.0.0.3 hostname"),
        ]
    );
}

#[test]
fn issue_command_to_some() {
    let records = three();
    assert_eq!(
        pairs(&issue_command(&records, "ls -l /", &Selection::Picked(vec![1]))),
        vec![("db", "ssh -i /keys/b -p 2222 deploy@10.0.0.2 ls -l /")]
    );
    assert_eq!(
        pairs(&issue_command(&records, "ls", &Selection::Picked(vec![2]))),
        vec![("web", "ssh -i /keys/c -p 22 admin@10.0.0.3 ls")]
    );
    assert!(issue_command(&records, "ls", &Selection::Picked(Vec::new())).is_empty());
    assert!(issue_command(&Vec::new(), "ls", &Selection::All).is_empty());
}

#[test]
fn parse_command_reads_the_arguments() {
    assert_eq!(
        parse_command("ssh -i /keys/a -p 22 root@10.0.0.1 uptime -p").unwrap(),
        vec!["-i", "/keys/a", "-p", "22", "root@10.0.0.1", "uptime", "-p"]
    );
}

#[test]
fn parse_command_needs_the_program() {
    assert!(parse_command("").is_none());
    assert!(parse_command("ssh").is_none());
    assert!(parse_command("sftp -i key").is_none());
    assert!(parse_command("ssh\t-i key").is_none());
    assert_eq!(parse_command("ssh ").unwrap().len(), 0);
}

#[test]
fn parse_command_splits_at_the_first_occurrence() {
    assert_eq!(parse_command("ssh one ssh two").unwrap(), vec!["one", "ssh", "two"]);
    assert_eq!(parse_command("xssh ssh ").unwrap(), vec!["ssh"]);
    assert_eq!(parse_command("sssh a").unwrap(), vec!["a"]);
    assert_eq!(parse_command("ss ssh ssh  b").unwrap(), vec!["ssh", "b"]);
}

#[test]
fn parse_command_drops_all_white_space() {
    assert_eq!(
        parse_command("ssh  \t one\n\ntwo \u{a0} three\u{3000}").unwrap(),
        vec!["one", "two", "three"]
    );
    assert!(parse_command("ssh  \r\n ").unwrap().is_empty());
}

fn has_white_space_property(c: char) -> bool {
    matches!(
        c,
        '\u{9}'..='\u{d}'
            | ' '
            | '\u{85}'
            | '\u{a0}'
            | '\u{1680}'
            | '\u{2000}'..='\u{200a}'
            | '\u{2028}'
            | '\u{2029}'
            | '\u{202f}'
            | '\u{205f}'
            | '\u{3000}'
    )
}

#[test]
fn words_break_at_white_space_only() {
    for code in 0u32..=0x10ffff {
        if let Some(c) = char::from_u32(code) {
            let command = format!("ssh a{}b", c);
            let found = parse_command(&command).unwrap();
            if has_white_space_property(c) {
                assert_eq!(found, vec!["a", "b"]);
            } else {
                assert_eq!(found.len(), 1);
                assert_eq!(found[0], format!("a{}b", c));
            }
        }
    }
}

#[test]
fn run_commands_takes_each_entry_apart() {
    let records = three();
    let batch = issue_command(&records, "df -h", &Selection::All);
    let invocations = run_commands(&batch);
    assert_eq!(invocations.len(), 3);
    assert_eq!(invocations[0].alias, "web");
    assert_eq!(
        invocations[0].arguments,
        vec!["-i", "/keys/a", "-p", "22", "root@10.0.0.1", "df", "-h"]
    );
    assert_eq!(invocations[1].alias, "db");
    assert_eq!(
        invocations[1].arguments,
        vec!["-i", "/keys/b", "-p", "2222", "deploy@10.0.0.2", "df", "-h"]
    );
    assert_eq!(invocations[2].alias, "web");
    assert_eq!(
        invocations[2].arguments,
        vec!["-i", "/keys/c", "-p", "22", "admin@10.0.0.3", "df", "-h"]
    );
    assert!(run_commands(&Vec::new()).is_empty());
}

#[test]
fn run_commands_takes_any_entry_that_names_the_program() {
    let batch = vec![Dispatch { alias: "x".to_string(), command: "  ssh   a  b ".to_string() }];
    let invocations = run_commands(&batch);
    assert_eq!(invocations.len(), 1);
    assert_eq!(invocations[0].alias, "x");
    assert_eq!(invocations[0].arguments, vec!["a", "b"]);
}

#[test]
fn every_issued_entry_can_be_executed() {
    let odd = vec![
        profile(1, "", "", "", "", ""),
        profile(2, "u s", " ", "k p", "\t", "alias"),
        profile(3, "ssh ", "ssh ", "alias", "ssh", "my ssh alias "),
    ];
    for command in ["", " ", "ssh alias"] {
        let batch = issue_command(&odd, command, &Selection::All);
        for entry in &batch {
            assert!(parse_command(&entry.command).is_some());
        }
        let invocations = run_commands(&batch);
        assert_eq!(invocations.len(), 3);
        assert_eq!(invocations[0].alias, "");
        assert_eq!(invocations[1].alias, "alias");
        assert_eq!(invocations[2].alias, "my ssh alias ");
    }
}

#[test]
fn arguments_do_not_depend_on_the_alias() {
    let plain = profile(1, "root", "h", "k", "22", "web");
    let marked = profile(1, "root", "h", "k", "22", "my ssh box");
    assert_eq!(
        parse_command(&create_command("ls", &plain)),
        parse_command(&create_command("ls", &marked))
    );
}

#[test]
fn arguments_come_back_for_solid_fields() {
    let p = profile(9, "root", "::1", "~/.ssh/id", "22", "local host");
    assert_eq!(
        parse_command(&create_command("  echo  hi ", &p)).unwrap(),
        vec!["-i", "~/.ssh/id", "-p", "22", "root@::1", "echo", "hi"]
    );
}

#[test]
fn arguments_follow_the_words_of_the_fields() {
    let gap = profile(9, "root", "h", "", "22", "x");
    assert_eq!(
        parse_command(&create_command("ls", &gap)).unwrap(),
        vec!["-i", "-p", "22", "root@h", "ls"]
    );
    let spread = profile(9, "ro ot", "h", "my key", "2 2", "x");
    assert_eq!(
        parse_command(&create_command("ls", &spread)).unwrap(),
        vec!["-i", "my", "key", "-p", "2", "2", "ro", "ot@h", "ls"]
    );
}

#[test]
fn dispatch_notice_reports_by_alias() {
    let sent = dispatch_notice("web", None);
    assert_eq!(sent.kind, "ok");
    assert_eq!(sent.text, "SSH command sent to web");
    assert_eq!(sent.color, "green");
    let failed = dispatch_notice("web", Some("No such file or directory (os error 2)"));
    assert_eq!(failed.kind, "error");
    assert_eq!(
        failed.text,
        "SSH command not sent to web: No such file or directory (os error 2)"
    );
    assert_eq!(failed.color, "red");
}
