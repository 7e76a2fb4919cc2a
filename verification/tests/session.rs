use rsh::builtin::{map_cmd, BuiltinCommand};
use rsh::classify::{classify, LineKind};
use rsh::config::RshConfig;
use rsh::expand::expand_xiro_variables;
use rsh::launch::launch_plan;
use rsh::shell::{Key, Phase, Shell, Step, TerminalMode};
use rsh::vars::{Value, Variable};

fn config() -> RshConfig {
    RshConfig::new("=> ".to_string(), "/usr/bin".to_string())
}

fn type_line(shell: &mut Shell, line: &str) {
    for c in line.chars() {
        assert_eq!(shell.key(Key::Char(c)), Step::Redraw);
    }
}

fn submit(shell: &mut Shell, line: &str) -> String {
    type_line(shell, line);
    match shell.key(Key::Enter) {
        Step::Run(l) => l,
        other => panic!("no line submitted: {:?}", other),
    }
}

fn shell_with_history(lines: &[&str]) -> Shell {
    let mut shell = Shell::new();
    for l in lines {
        submit(&mut shell, l);
        shell.resume();
    }
    shell
}

fn history_of(shell: &Shell) -> Vec<String> {
    let mut out = Vec::new();
    for i in 0..shell.history_len() {
        out.push(shell.history_line(i).to_string());
    }
    out
}

#[test]
fn config_keeps_prompt_and_directory() {
    let c = config();
    assert_eq!(c.prompt, "=> ");
    assert_eq!(c.bin_path, "/usr/bin");
}

#[test]
fn new_shell_reads_keys_in_raw_mode() {
    let shell = Shell::new();
    assert_eq!(shell.phase(), Phase::Reading);
    assert_eq!(shell.mode(), TerminalMode::Raw);
    assert_eq!(shell.buffer(), "");
    assert_eq!(shell.history_len(), 0);
    assert_eq!(shell.display(&config()), "=> ");
}

#[test]
fn echo_hi_is_launched_and_remembered() {
    let mut shell = Shell::new();
    let line = submit(&mut shell, "echo hi");
    assert_eq!(line, "echo hi");
    assert_eq!(shell.phase(), Phase::Running);
    assert_eq!(shell.mode(), TerminalMode::Cooked);
    assert_eq!(classify(&line, false, false), LineKind::External);
    let expanded = expand_xiro_variables(line, &Vec::new());
    let plan = launch_plan(&config(), &expanded).unwrap();
    assert_eq!(plan.program, "/usr/bin/echo");
    assert_eq!(plan.argv, vec!["echo".to_string(), "hi".to_string()]);
    shell.resume();
    assert_eq!(shell.phase(), Phase::Reading);
    assert_eq!(shell.mode(), TerminalMode::Raw);
    assert_eq!(shell.buffer(), "");
    assert_eq!(shell.display(&config()), "=> ");
    assert_eq!(history_of(&shell), vec!["echo hi".to_string()]);
}

#[test]
fn history_keeps_the_line_as_typed() {
    let table = vec![Variable { name: "NAME".to_string(), value: Value::Text("world".to_string()) }];
    let mut shell = Shell::new();
    let line = submit(&mut shell, "echo $NAME");
    assert_eq!(classify(&line, false, false), LineKind::External);
    let expanded = expand_xiro_variables(line, &table);
    assert_eq!(expanded, "echo world");
    let plan = launch_plan(&config(), &expanded).unwrap();
    assert_eq!(plan.argv, vec!["echo".to_string(), "world".to_string()]);
    shell.resume();
    assert_eq!(history_of(&shell), vec!["echo $NAME".to_string()]);
}

#[test]
fn longest_name_reaches_the_launcher() {
    let table = vec![
        Variable { name: "A".to_string(), value: Value::Text("x".to_string()) },
        Variable { name: "AB".to_string(), value: Value::Text("y".to_string()) },
    ];
    let mut shell = Shell::new();
    let line = submit(&mut shell, "echo $AB");
    assert_eq!(expand_xiro_variables(line, &table), "echo y");
}

#[test]
fn help_takes_the_builtin_path() {
    let mut shell = Shell::new();
    let line = submit(&mut shell, "@help");
    assert_eq!(classify(&line, false, false), LineKind::Builtin);
    assert_eq!(map_cmd(&line), BuiltinCommand::Help);
    shell.resume();
    assert_eq!(history_of(&shell), vec!["@help".to_string()]);
}

#[test]
fn enter_on_empty_line_changes_nothing() {
    let mut shell = shell_with_history(&["a"]);
    assert_eq!(shell.key(Key::Enter), Step::Redraw);
    assert_eq!(shell.phase(), Phase::Reading);
    assert_eq!(shell.mode(), TerminalMode::Raw);
    assert_eq!(shell.buffer(), "");
    assert_eq!(history_of(&shell), vec!["a".to_string()]);
    assert_eq!(shell.display(&config()), "=> ");
}

#[test]
fn enter_on_empty_line_keeps_the_recalled_place() {
    let mut shell = shell_with_history(&["a", "b"]);
    shell.key(Key::Up);
    shell.key(Key::Backspace);
    assert_eq!(shell.key(Key::Enter), Step::Redraw);
    shell.key(Key::Up);
    assert_eq!(shell.buffer(), "a");
}

#[test]
fn up_up_down_enter_submits_c() {
    let mut shell = shell_with_history(&["a", "b", "c"]);
    assert_eq!(shell.key(Key::Up), Step::Redraw);
    assert_eq!(shell.buffer(), "c");
    assert_eq!(shell.key(Key::Up), Step::Redraw);
    assert_eq!(shell.buffer(), "b");
    assert_eq!(shell.key(Key::Down), Step::Redraw);
    assert_eq!(shell.buffer(), "c");
    assert_eq!(shell.key(Key::Enter), Step::Run("c".to_string()));
    shell.resume();
    assert_eq!(
        history_of(&shell),
        vec!["a".to_string(), "b".to_string(), "c".to_string(), "c".to_string()]
    );
}

#[test]
fn escape_leaves_in_cooked_mode() {
    let mut shell = Shell::new();
    type_line(&mut shell, "abc");
    assert_eq!(shell.key(Key::Escape), Step::Exit);
    assert_eq!(shell.phase(), Phase::Exited);
    assert_eq!(shell.mode(), TerminalMode::Cooked);
}

#[test]
fn printable_keys_and_backspace_edit_the_buffer() {
    let mut shell = Shell::new();
    type_line(&mut shell, "lsx");
    assert_eq!(shell.buffer(), "lsx");
    assert_eq!(shell.key(Key::Backspace), Step::Redraw);
    assert_eq!(shell.buffer(), "ls");
    assert_eq!(shell.display(&config()), "=> ls");
    shell.key(Key::Backspace);
    shell.key(Key::Backspace);
    assert_eq!(shell.key(Key::Backspace), Step::Redraw);
    assert_eq!(shell.buffer(), "");
}

#[test]
fn other_keys_are_ignored() {
    let mut shell = shell_with_history(&["a"]);
    type_line(&mut shell, "ls");
    assert_eq!(shell.key(Key::Other), Step::Redraw);
    assert_eq!(shell.buffer(), "ls");
    assert_eq!(shell.mode(), TerminalMode::Raw);
    assert_eq!(history_of(&shell), vec!["a".to_string()]);
}

#[test]
fn up_on_empty_history_keeps_the_buffer() {
    let mut shell = Shell::new();
    type_line(&mut shell, "ls");
    assert_eq!(shell.key(Key::Up), Step::Redraw);
    assert_eq!(shell.buffer(), "ls");
}

#[test]
fn up_stops_at_the_oldest_line() {
    let mut shell = shell_with_history(&["a", "b"]);
    shell.key(Key::Up);
    shell.key(Key::Up);
    shell.key(Key::Up);
    shell.key(Key::Up);
    assert_eq!(shell.buffer(), "a");
}

#[test]
fn down_without_recall_keeps_the_buffer() {
    let mut shell = shell_with_history(&["a"]);
    type_line(&mut shell, "ls");
    assert_eq!(shell.key(Key::Down), Step::Redraw);
    assert_eq!(shell.buffer(), "ls");
}

#[test]
fn down_past_the_newest_clears_the_buffer() {
    let mut shell = shell_with_history(&["a", "b"]);
    shell.key(Key::Up);
    assert_eq!(shell.buffer(), "b");
    shell.key(Key::Down);
    assert_eq!(shell.buffer(), "");
    shell.key(Key::Up);
    assert_eq!(shell.buffer(), "b");
}

#[test]
fn statement_is_a_script_line() {
    assert_eq!(classify("let x = 1", true, false), LineKind::Script);
    assert_eq!(classify("x = 2", false, true), LineKind::Script);
    assert_eq!(classify("ls", false, false), LineKind::External);
}

#[test]
fn builtin_comes_before_statement() {
    assert_eq!(classify("@talk a b", true, true), LineKind::Builtin);
    assert_eq!(classify("  @list_neurons", false, true), LineKind::Builtin);
}

#[test]
fn classification_is_the_same_each_time() {
    for line in ["@help", "ls -l", "x = 1", "@helper"] {
        for d in [false, true] {
            for a in [false, true] {
                assert_eq!(classify(line, d, a), classify(line, d, a));
            }
        }
    }
}
