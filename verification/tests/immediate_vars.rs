use wgsl_bindgen::immediate_vars::{collect_immediate_var_names, restore_immediate_vars};

#[test]
fn immediate_var_names_are_collected_once_in_order() {
    let source = "var<immediate> pc : Push;\nvar<private> p: f32;\nvar<immediate>   other: X;\nvar<immediate> pc: Y;\n";
    assert_eq!(collect_immediate_var_names(source), vec!["pc".to_string(), "other".to_string()]);
    assert!(collect_immediate_var_names("var<private> x: f32;").is_empty());
}

#[test]
fn immediate_vars_are_restored_by_name() {
    let compiled = "var<private> pc: Push;\nvar<private> kept: f32;\nvar<private> other: X;\n".to_string();
    let names = vec!["pc".to_string(), "other".to_string()];
    assert_eq!(
        restore_immediate_vars(compiled, &names),
        "var<immediate> pc: Push;\nvar<private> kept: f32;\nvar<immediate> other: X;\n"
    );
    assert_eq!(restore_immediate_vars("fn main() {}".to_string(), &vec![]), "fn main() {}");
}
