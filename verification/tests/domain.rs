use rooc::parser::domain_declaration::format_domain;
use rooc::parser::CompoundVariable;

fn pairs(v: &[(&str, &str)]) -> Vec<(String, String)> {
    v.iter().map(|(a, b)| (a.to_string(), b.to_string())).collect()
}

#[test]
fn variables_of_one_type_share_a_line() {
    let d = pairs(&[("x", "Boolean"), ("y", "Real"), ("z", "Boolean"), ("w", "IntegerRange(0, 3)")]);
    assert_eq!(format_domain(&d), "x, z as Boolean\ny as Real\nw as IntegerRange(0, 3)");
}

#[test]
fn empty_domain_has_no_lines() {
    assert_eq!(format_domain(&vec![]), "");
}

#[test]
fn single_variable() {
    assert_eq!(format_domain(&pairs(&[("a", "Real")])), "a as Real");
}

#[test]
fn law_one_line_per_type_in_order_of_first_appearance() {
    let d = pairs(&[("a", "T2"), ("b", "T1"), ("c", "T2"), ("d", "T1"), ("e", "T3")]);
    let text = format_domain(&d);
    let types: Vec<&str> = text.lines().map(|l| l.rsplit(" as ").next().unwrap()).collect();
    assert_eq!(types, vec!["T2", "T1", "T3"]);
    // every variable is on the line of its type
    for (name, ty) in &d {
        let line = text.lines().find(|l| l.ends_with(&format!(" as {}", ty))).unwrap();
        assert!(line.split(" as ").next().unwrap().split(", ").any(|n| n == name));
    }
}

#[test]
fn compound_variable_names() {
    let v = CompoundVariable::new("x".to_string(), vec!["1".to_string(), "a".to_string()]);
    assert_eq!(v.to_string(), "x_1_a");
    assert_eq!(CompoundVariable::new("y".to_string(), vec![]).to_string(), "y_");
}
