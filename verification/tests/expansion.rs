use rsh::expand::expand_xiro_variables;
use rsh::vars::{render, Value, Variable};

fn var(name: &str, value: Value) -> Variable {
    Variable { name: name.to_string(), value }
}

fn text(s: &str) -> Value {
    Value::Text(s.to_string())
}

fn expand(line: &str, table: &Vec<Variable>) -> String {
    expand_xiro_variables(line.to_string(), table)
}

fn shown(v: &Value) -> String {
    render(v).into_iter().collect()
}

#[test]
fn known_name_is_replaced_by_its_value() {
    let table = vec![var("NAME", text("world"))];
    assert_eq!(expand("echo $NAME", &table), "echo world");
}

#[test]
fn longer_name_wins_over_its_prefix() {
    let table = vec![var("A", text("x")), var("AB", text("y"))];
    assert_eq!(expand("echo $AB", &table), "echo y");
    let table = vec![var("AB", text("y")), var("A", text("x"))];
    assert_eq!(expand("echo $AB", &table), "echo y");
    assert_eq!(expand("echo $A", &table), "echo x");
}

#[test]
fn abc_is_not_read_as_a_followed_by_bc() {
    let table = vec![var("a", text("1")), var("abc", text("2"))];
    assert_eq!(expand("$abc", &table), "2");
    assert_eq!(expand("$a $abc $ab", &table), "1 2 $ab");
}

#[test]
fn longest_of_two_names_with_punctuation_wins() {
    let table = vec![var("a", text("short")), var("a-b", text("long"))];
    assert_eq!(expand("$a-b", &table), "long");
    let table = vec![var("a-b", text("long")), var("a", text("short"))];
    assert_eq!(expand("$a-b", &table), "long");
    assert_eq!(expand("$a-c", &table), "short-c");
}

#[test]
fn value_is_not_expanded_again() {
    let table = vec![var("X", text("$Y")), var("Y", text("hello"))];
    assert_eq!(expand("$X", &table), "$Y");
    assert_eq!(expand("$X $Y", &table), "$Y hello");
    let table = vec![var("Y", text("hello")), var("X", text("$Y"))];
    assert_eq!(expand("$X", &table), "$Y");
}

#[test]
fn line_without_dollar_is_unchanged() {
    let table = vec![var("ls", text("nope")), var("l", text("no"))];
    assert_eq!(expand("ls -l /tmp", &table), "ls -l /tmp");
    assert_eq!(expand("", &table), "");
    assert_eq!(expand("ls -l", &Vec::new()), "ls -l");
}

#[test]
fn unknown_name_stays() {
    let table = vec![var("NAME", text("world"))];
    assert_eq!(expand("echo $OTHER", &table), "echo $OTHER");
    assert_eq!(expand("echo $", &table), "echo $");
    assert_eq!(expand("$NAME $OTHER", &Vec::new()), "$NAME $OTHER");
}

#[test]
fn name_must_end_at_a_word_boundary() {
    let table = vec![var("NAME", text("world"))];
    assert_eq!(expand("$NAMES", &table), "$NAMES");
    assert_eq!(expand("$NAME_1", &table), "$NAME_1");
    assert_eq!(expand("$NAME.", &table), "world.");
    assert_eq!(expand("$NAME/$NAME", &table), "world/world");
    assert_eq!(expand("$NAME$NAME", &table), "worldworld");
    assert_eq!(expand("x$NAME", &table), "xworld");
    assert_eq!(expand("$$NAME", &table), "$world");
}

#[test]
fn special_characters_in_a_name_are_literal() {
    let table = vec![var("a.b", text("dot"))];
    assert_eq!(expand("$a.b", &table), "dot");
    assert_eq!(expand("$axb", &table), "$axb");
}

#[test]
fn first_of_two_equal_names_is_taken() {
    let table = vec![var("N", text("first")), var("N", text("second"))];
    assert_eq!(expand("$N", &table), "first");
}

#[test]
fn text_is_shown_without_quotes() {
    assert_eq!(shown(&text("a b")), "a b");
    assert_eq!(shown(&text("")), "");
}

#[test]
fn integer_is_shown_in_decimal() {
    assert_eq!(shown(&Value::Integer(0)), "0");
    assert_eq!(shown(&Value::Integer(7)), "7");
    assert_eq!(shown(&Value::Integer(1203)), "1203");
    assert_eq!(shown(&Value::Integer(-42)), "-42");
    assert_eq!(shown(&Value::Integer(i64::MAX)), "9223372036854775807");
    assert_eq!(shown(&Value::Integer(i64::MIN)), "-9223372036854775808");
}

#[test]
fn decimal_is_shown_as_given() {
    assert_eq!(shown(&Value::Decimal("3.14".to_string())), "3.14");
}

#[test]
fn boolean_is_shown_in_lower_case() {
    assert_eq!(shown(&Value::Boolean(true)), "true");
    assert_eq!(shown(&Value::Boolean(false)), "false");
}

#[test]
fn list_is_shown_with_spaces_between() {
    let list = Value::List(vec![text("a"), Value::Integer(1), Value::Boolean(true)]);
    assert_eq!(shown(&list), "a 1 true");
    assert_eq!(shown(&Value::List(Vec::new())), "");
    assert_eq!(shown(&Value::List(vec![Value::Integer(5)])), "5");
    let nested = Value::List(vec![text("x"), Value::List(vec![Value::Integer(1), Value::Integer(2)])]);
    assert_eq!(shown(&nested), "x 1 2");
}

#[test]
fn values_of_every_kind_are_substituted() {
    let table = vec![
        var("n", Value::Integer(-3)),
        var("f", Value::Decimal("0.5".to_string())),
        var("b", Value::Boolean(false)),
        var("l", Value::List(vec![text("a"), text("b")])),
    ];
    assert_eq!(expand("p $n $f $b $l", &table), "p -3 0.5 false a b");
}

fn by_pattern(line: &str, name: &str, value: &str) -> String {
    let pattern = format!(r"(\$\b{}\b)", regex::escape(name));
    let re = regex::Regex::new(&pattern).unwrap();
    re.replace_all(line, regex::NoExpand(value)).to_string()
}

#[test]
fn one_variable_is_replaced_where_the_pattern_matches() {
    let lines = [
        "$A", "$AB", "echo $NAME!", "$NAMES", "$a.b $axb", "x$x_1 $x_1y $x_1-", "$A$AB$A",
        "no refs", "$", "$$A", "$A $A", "", " $A\t$AB\n", "$a.b.c", "($NAME)", "$1 $A1 $_A",
    ];
    for name in ["A", "AB", "NAME", "a.b", "x_1", "1", "_A", "a+", "+a"] {
        for line in lines {
            let table = vec![var(name, text("v$A"))];
            assert_eq!(expand(line, &table), by_pattern(line, name, "v$A"), "{} in {}", name, line);
        }
    }
}
