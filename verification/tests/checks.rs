use girlint::checker::CheckAll;
use girlint::class::ClassChecker;
use girlint::driver::{check_namespace, Options};
use girlint::entities::{Class, FunctionScope, Method, Parameter, Property, SourcePosition};
use girlint::method::MethodChecker;
use girlint::parameter::ParameterChecker;
use girlint::property::PropertyChecker;
use girlint::sorting::sort_warnings;
use girlint::warning::{Severity, Warning};

fn plain_class(name: &str) -> Class {
    Class {
        name: name.to_string(),
        doc: Some("docs".to_string()),
        position: None,
        deprecated: false,
        properties: vec![],
        methods: vec![],
    }
}

fn plain_property(name: &str) -> Property {
    Property {
        name: name.to_string(),
        doc: Some("docs".to_string()),
        position: None,
        deprecated: false,
        readable: true,
        writable: true,
        construct_only: false,
        getter: Some(format!("get_{name}")),
        setter: Some(format!("set_{name}")),
    }
}

fn plain_method(name: &str) -> Method {
    Method {
        name: name.to_string(),
        c_identifier: None,
        doc: Some("docs".to_string()),
        position: None,
        deprecated: false,
        finish_func: None,
        parameters: vec![],
        get_property: None,
        set_property: None,
    }
}

fn plain_parameter(name: &str) -> Parameter {
    Parameter {
        name: name.to_string(),
        doc: Some("docs".to_string()),
        position: None,
        scope: None,
        closure: None,
        destroy: None,
    }
}

fn messages(warnings: &[Warning]) -> Vec<String> {
    warnings.iter().map(|w| w.message.clone()).collect()
}

#[test]
fn undocumented_class_yields_error_and_warning() {
    let mut class = plain_class("Foo");
    class.doc = None;
    let checker = ClassChecker::new(&class);
    let mut warnings = vec![];
    checker.check_all(&mut warnings);
    assert_eq!(warnings.len(), 2);
    assert!(matches!(warnings[0].severity, Severity::Error));
    assert_eq!(warnings[0].message, "Class Foo is missing docs");
    assert!(matches!(warnings[1].severity, Severity::Warning));
    assert_eq!(warnings[1].message, "Class Foo missing a docstring");
}

#[test]
fn documented_class_yields_nothing() {
    let class = plain_class("Foo");
    let checker = ClassChecker::new(&class);
    assert!(checker.has_docs());
    let mut warnings = vec![];
    checker.check_all(&mut warnings);
    assert!(warnings.is_empty());
}

#[test]
fn method_id_prefers_c_identifier() {
    let class = plain_class("Foo");
    let mut method = plain_method("bar");
    method.c_identifier = Some("foo_bar".to_string());
    method.finish_func = None;
    method.parameters = vec![Parameter {
        scope: Some(FunctionScope::Async),
        ..plain_parameter("cb")
    }];
    let checker = MethodChecker::new(&method, &class);
    let mut warnings = vec![];
    checker.check_all(&mut warnings);
    assert_eq!(warnings.len(), 1);
    assert!(matches!(warnings[0].severity, Severity::Info));
    assert_eq!(warnings[0].message, "Method foo_bar is missing a finish-func");
}

#[test]
fn method_id_falls_back_to_class_and_name() {
    let class = plain_class("Foo");
    let mut method = plain_method("bar");
    method.parameters = vec![Parameter {
        scope: Some(FunctionScope::Async),
        ..plain_parameter("cb")
    }];
    let checker = MethodChecker::new(&method, &class);
    let mut warnings = vec![];
    checker.check_all(&mut warnings);
    assert_eq!(messages(&warnings), vec!["Method Foo.bar is missing a finish-func"]);
}

#[test]
fn async_method_with_finish_func_is_clean() {
    let class = plain_class("Foo");
    let mut method = plain_method("bar");
    method.finish_func = Some("bar_finish".to_string());
    method.parameters = vec![Parameter {
        scope: Some(FunctionScope::Async),
        ..plain_parameter("cb")
    }];
    let checker = MethodChecker::new(&method, &class);
    let mut warnings = vec![];
    checker.check_all(&mut warnings);
    assert!(warnings.is_empty());
}

#[test]
fn non_async_method_is_clean() {
    let class = plain_class("Foo");
    let method = plain_method("bar");
    let checker = MethodChecker::new(&method, &class);
    let mut warnings = vec![];
    checker.check_all(&mut warnings);
    assert!(warnings.is_empty());
}

#[test]
fn notified_parameter_missing_both_yields_two_errors() {
    let class = plain_class("Foo");
    let mut parameter = plain_parameter("cb");
    parameter.scope = Some(FunctionScope::Notified);
    let checker = ParameterChecker::new(&parameter, "foo_bar", &class);
    let mut warnings = vec![];
    checker.check_all(&mut warnings);
    assert_eq!(warnings.len(), 2);
    assert!(matches!(warnings[0].severity, Severity::Error));
    assert!(matches!(warnings[1].severity, Severity::Error));
    assert_eq!(warnings[0].message, "Parameter cb of foo_bar is missing destroy");
    assert_eq!(warnings[1].message, "Parameter cb of foo_bar is missing closure");
}

#[test]
fn notified_parameter_rules_toggle_independently() {
    let class = plain_class("Foo");
    let mut with_destroy = plain_parameter("cb");
    with_destroy.scope = Some(FunctionScope::Notified);
    with_destroy.destroy = Some(2);
    let mut warnings = vec![];
    ParameterChecker::new(&with_destroy, "foo_bar", &class).check_all(&mut warnings);
    assert_eq!(messages(&warnings), vec!["Parameter cb of foo_bar is missing closure"]);

    let mut with_closure = plain_parameter("cb");
    with_closure.scope = Some(FunctionScope::Notified);
    with_closure.closure = Some(1);
    let mut warnings = vec![];
    ParameterChecker::new(&with_closure, "foo_bar", &class).check_all(&mut warnings);
    assert_eq!(messages(&warnings), vec!["Parameter cb of foo_bar is missing destroy"]);

    let mut with_both = plain_parameter("cb");
    with_both.scope = Some(FunctionScope::Notified);
    with_both.closure = Some(1);
    with_both.destroy = Some(2);
    let mut warnings = vec![];
    ParameterChecker::new(&with_both, "foo_bar", &class).check_all(&mut warnings);
    assert!(warnings.is_empty());
}

#[test]
fn unscoped_parameter_is_clean() {
    let class = plain_class("Foo");
    let parameter = plain_parameter("cb");
    let mut warnings = vec![];
    ParameterChecker::new(&parameter, "foo_bar", &class).check_all(&mut warnings);
    assert!(warnings.is_empty());
}

#[test]
fn readable_property_without_getter_yields_info() {
    let class = plain_class("Foo");
    let mut property = plain_property("p");
    property.getter = None;
    property.writable = false;
    property.setter = None;
    let mut warnings = vec![];
    PropertyChecker::new(&property, &class).check_all(&mut warnings);
    assert_eq!(warnings.len(), 1);
    assert!(matches!(warnings[0].severity, Severity::Info));
    assert_eq!(warnings[0].message, "Property Foo:p is missing a getter");
}

#[test]
fn unreadable_property_with_getter_yields_error() {
    let class = plain_class("Foo");
    let mut property = plain_property("p");
    property.readable = false;
    property.writable = false;
    property.setter = None;
    let mut warnings = vec![];
    PropertyChecker::new(&property, &class).check_all(&mut warnings);
    assert_eq!(messages(&warnings), vec!["Property Foo:p has a getter but it is not readable"]);
    assert!(matches!(warnings[0].severity, Severity::Error));
}

#[test]
fn writable_property_without_setter_yields_info() {
    let class = plain_class("Foo");
    let mut property = plain_property("p");
    property.readable = false;
    property.getter = None;
    property.setter = None;
    let mut warnings = vec![];
    PropertyChecker::new(&property, &class).check_all(&mut warnings);
    assert_eq!(warnings.len(), 1);
    assert!(matches!(warnings[0].severity, Severity::Info));
    assert_eq!(warnings[0].message, "Property Foo:p is missing a setter");
}

#[test]
fn unwritable_property_with_setter_yields_error() {
    let class = plain_class("Foo");
    let mut property = plain_property("p");
    property.readable = false;
    property.getter = None;
    property.writable = false;
    let mut warnings = vec![];
    PropertyChecker::new(&property, &class).check_all(&mut warnings);
    assert_eq!(messages(&warnings), vec!["Property Foo:p has a setter but it is not writable"]);
}

#[test]
fn construct_only_property_with_setter_yields_error() {
    let class = plain_class("Foo");
    let mut property = plain_property("p");
    property.readable = false;
    property.getter = None;
    property.construct_only = true;
    let mut warnings = vec![];
    PropertyChecker::new(&property, &class).check_all(&mut warnings);
    assert_eq!(messages(&warnings), vec!["Property Foo:p has a setter but it is construct-only"]);
    assert!(matches!(warnings[0].severity, Severity::Error));
}

#[test]
fn undocumented_property_yields_error_and_warning() {
    let class = plain_class("Foo");
    let mut property = plain_property("p");
    property.doc = None;
    property.getter = None;
    property.readable = false;
    property.writable = false;
    property.setter = None;
    let mut warnings = vec![];
    PropertyChecker::new(&property, &class).check_all(&mut warnings);
    assert_eq!(
        messages(&warnings),
        vec!["Property Foo:p is missing a docstring", "Property Foo:p missing a docstring"]
    );
    assert!(matches!(warnings[0].severity, Severity::Error));
    assert!(matches!(warnings[1].severity, Severity::Warning));
}

#[test]
fn getter_back_reference_mismatch_yields_error() {
    let mut class = plain_class("Foo");
    let mut method = plain_method("p");
    method.get_property = Some("other".to_string());
    class.methods = vec![method];
    let mut property = plain_property("p");
    property.writable = false;
    property.setter = None;
    let mut warnings = vec![];
    PropertyChecker::new(&property, &class).check_all(&mut warnings);
    assert_eq!(
        messages(&warnings),
        vec!["Property Foo:p has a getter but the getter does not have get-property"]
    );
}

#[test]
fn getter_back_reference_match_is_clean() {
    let mut class = plain_class("Foo");
    let mut method = plain_method("p");
    method.get_property = Some("get_p".to_string());
    class.methods = vec![method];
    let mut property = plain_property("p");
    property.writable = false;
    property.setter = None;
    let mut warnings = vec![];
    PropertyChecker::new(&property, &class).check_all(&mut warnings);
    assert!(warnings.is_empty());
}

#[test]
fn setter_back_reference_mismatch_yields_error() {
    let mut class = plain_class("Foo");
    let mut first = plain_method("p");
    first.set_property = Some("other".to_string());
    let mut second = plain_method("p");
    second.set_property = Some("set_p".to_string());
    // the first same-named method decides
    class.methods = vec![first, second];
    let mut property = plain_property("p");
    property.readable = false;
    property.getter = None;
    let mut warnings = vec![];
    PropertyChecker::new(&property, &class).check_all(&mut warnings);
    assert_eq!(
        messages(&warnings),
        vec!["Property Foo:p has a setter but the setter does not have set-property"]
    );
}

#[test]
fn accessor_without_same_named_method_is_not_cross_checked() {
    let mut class = plain_class("Foo");
    class.methods = vec![plain_method("unrelated")];
    let property = plain_property("p");
    let mut warnings = vec![];
    PropertyChecker::new(&property, &class).check_all(&mut warnings);
    assert!(warnings.is_empty());
}

#[test]
fn render_with_position() {
    let pos = SourcePosition { filename: "foo.gir".to_string(), line: "42".to_string() };
    let w = Warning::error(Some(&pos), "Class Foo", "is missing docs");
    assert_eq!(w.render(), "ERROR foo.gir:42: Class Foo is missing docs");
}

#[test]
fn render_without_position() {
    let w = Warning::info(None, "Property Foo:p", "is missing a getter");
    assert_eq!(w.render(), "INFO: Property Foo:p is missing a getter");
    let w = Warning::new(None, "Class Foo", "missing a docstring");
    assert_eq!(w.render(), "WARNING: Class Foo missing a docstring");
}

#[test]
fn sort_ranks_gravest_first_and_is_stable() {
    let warnings = vec![
        Warning::info(None, "a", "first info"),
        Warning::new(None, "b", "first warning"),
        Warning::error(None, "c", "first error"),
        Warning::info(None, "d", "second info"),
        Warning::error(None, "e", "second error"),
    ];
    let sorted = sort_warnings(warnings);
    assert_eq!(
        messages(&sorted),
        vec!["c first error", "e second error", "b first warning", "a first info", "d second info"]
    );
}

#[test]
fn sorting_twice_changes_nothing() {
    let warnings = vec![
        Warning::info(None, "a", "info"),
        Warning::error(None, "b", "error"),
        Warning::new(None, "c", "warning"),
    ];
    let once = sort_warnings(warnings);
    let first = messages(&once);
    let twice = sort_warnings(once);
    assert_eq!(messages(&twice), first);
}

#[test]
fn full_scenario_orders_error_warning_info() {
    let mut class = plain_class("X");
    class.doc = None;
    let mut property = plain_property("p");
    property.getter = None;
    property.writable = false;
    property.setter = None;
    class.properties = vec![property];
    let mut method = plain_method("go");
    method.c_identifier = Some("x_go".to_string());
    method.parameters = vec![Parameter {
        scope: Some(FunctionScope::Async),
        ..plain_parameter("cb")
    }];
    class.methods = vec![method];

    let report = check_namespace(&vec![class], &Options { ignore_deprecated: false });
    assert_eq!(
        messages(&report),
        vec![
            "Class X is missing docs",
            "Class X missing a docstring",
            "Property X:p is missing a getter",
            "Method x_go is missing a finish-func",
        ]
    );
    assert!(matches!(report[0].severity, Severity::Error));
    assert!(matches!(report[1].severity, Severity::Warning));
    assert!(matches!(report[2].severity, Severity::Info));
    assert!(matches!(report[3].severity, Severity::Info));
}

#[test]
fn deprecated_class_is_skipped_when_ignoring_deprecated() {
    let mut class = plain_class("X");
    class.doc = None;
    class.deprecated = true;
    let mut property = plain_property("p");
    property.getter = None;
    class.properties = vec![property];
    let report = check_namespace(&vec![class], &Options { ignore_deprecated: true });
    assert!(report.is_empty());
}

#[test]
fn deprecated_class_is_reported_without_the_flag() {
    let mut class = plain_class("X");
    class.doc = None;
    class.deprecated = true;
    let report = check_namespace(&vec![class], &Options { ignore_deprecated: false });
    assert_eq!(report.len(), 2);
}

#[test]
fn deprecated_members_are_skipped_but_parameters_never_are() {
    let mut class = plain_class("X");
    let mut dead_property = plain_property("p");
    dead_property.deprecated = true;
    dead_property.getter = None;
    class.properties = vec![dead_property];
    let mut dead_method = plain_method("go");
    dead_method.deprecated = true;
    dead_method.parameters = vec![Parameter {
        scope: Some(FunctionScope::Async),
        ..plain_parameter("cb")
    }];
    let mut live_method = plain_method("run");
    let mut notified = plain_parameter("cb");
    notified.scope = Some(FunctionScope::Notified);
    live_method.parameters = vec![notified];
    class.methods = vec![dead_method, live_method];

    let report = check_namespace(&vec![class], &Options { ignore_deprecated: true });
    assert_eq!(
        messages(&report),
        vec![
            "Parameter cb of run is missing destroy",
            "Parameter cb of run is missing closure",
        ]
    );
}
