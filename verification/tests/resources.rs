use drink_o_matic::resources::{ResourceService, ResourcesElement, StringElement};
use drink_o_matic::template::{may_include_partial, TemplateData};

fn string(name: &str, content: &str) -> StringElement {
    StringElement { name: name.to_string(), content: content.to_string() }
}

fn service() -> ResourceService {
    ResourceService::new(ResourcesElement {
        strings: vec![
            string("daemon_thread_started_message", "Started daemon thread"),
            string("scheduling_pump_info_message_template", "Pump {{pump_number}}: {{milliseconds}} ms"),
            string("getting_chip_info_message_template", "Getting chip {{chip_name}}"),
            string("daemon_thread_started_message", "Second of that name"),
            string("", "nameless"),
            string("broken_template", "{{#if pump_number}}never closed"),
            string("plain", "no fields here"),
        ],
    })
}

#[test]
fn a_string_is_found_by_its_name() {
    let service = service();
    assert_eq!(
        service.get_resource_string_by_name("getting_chip_info_message_template"),
        Some("Getting chip {{chip_name}}".to_string())
    );
    assert_eq!(service.get_resource_string_by_name("plain"), Some("no fields here".to_string()));
    assert_eq!(service.get_resource_string_by_name(""), Some("nameless".to_string()));
}

#[test]
fn the_first_string_of_a_name_wins() {
    assert_eq!(
        service().get_resource_string_by_name("daemon_thread_started_message"),
        Some("Started daemon thread".to_string())
    );
}

#[test]
fn a_name_that_no_string_has_gives_nothing() {
    let service = service();
    assert_eq!(service.get_resource_string_by_name("missing"), None);
    assert_eq!(service.get_resource_string_by_name("Plain"), None);
    assert_eq!(service.get_resource_string_by_name("plain "), None);
    assert_eq!(service.get_resource_string_by_name("plai"), None);
    let empty = ResourceService::new(ResourcesElement { strings: vec![] });
    assert_eq!(empty.get_resource_string_by_name("plain"), None);
    assert_eq!(empty.get_resource_string_by_name(""), None);
}

#[test]
fn a_template_is_rendered_with_its_numbers() {
    let data = TemplateData::new().with_number("pump_number", 3).with_number("milliseconds", 1600);
    assert_eq!(
        service().render_resource_template_string_by_name(
            "scheduling_pump_info_message_template",
            &data
        ),
        Some("Pump 3: 1600 ms".to_string())
    );
}

#[test]
fn a_template_is_rendered_with_its_texts() {
    let data = TemplateData::new().with_text("chip_name", "gpiochip0");
    assert_eq!(
        service().render_resource_template_string_by_name(
            "getting_chip_info_message_template",
            &data
        ),
        Some("Getting chip gpiochip0".to_string())
    );
}

#[test]
fn a_field_without_a_value_renders_as_nothing() {
    let data = TemplateData::new().with_number("pump_number", 3);
    assert_eq!(
        service().render_resource_template_string_by_name(
            "scheduling_pump_info_message_template",
            &data
        ),
        Some("Pump 3:  ms".to_string())
    );
}

#[test]
fn a_template_without_fields_renders_as_itself() {
    let data = TemplateData::new().with_number("pump_number", 3);
    assert_eq!(
        service().render_resource_template_string_by_name("plain", &data),
        Some("no fields here".to_string())
    );
}

#[test]
fn a_missing_template_renders_to_nothing() {
    let data = TemplateData::new().with_number("pump_number", 3);
    assert_eq!(service().render_resource_template_string_by_name("missing", &data), None);
}

#[test]
fn a_template_in_error_renders_to_nothing() {
    let data = TemplateData::new().with_number("pump_number", 3);
    assert_eq!(service().render_resource_template_string_by_name("broken_template", &data), None);
    assert_eq!(data.render("{{#if pump_number}}never closed"), None);
    assert_eq!(data.render("{{"), None);
}

#[test]
fn a_later_field_takes_the_place_of_an_earlier_one() {
    let data = TemplateData::new()
        .with_number("value", 1)
        .with_number("value", 2)
        .with_text("other", "first")
        .with_text("other", "second");
    assert_eq!(data.render("{{value}} {{other}}"), Some("2 second".to_string()));
    let data = TemplateData::new().with_text("value", "text").with_number("value", 7);
    assert_eq!(data.render("{{value}}"), Some("7".to_string()));
    let data = TemplateData::new().with_number("value", 7).with_text("value", "text");
    assert_eq!(data.render("{{value}}"), Some("text".to_string()));
}

#[test]
fn numbers_and_texts_differ_as_conditions() {
    let zero = TemplateData::new().with_number("value", 0);
    let text = TemplateData::new().with_text("value", "0");
    assert_eq!(zero.render("{{#if value}}yes{{else}}no{{/if}}"), Some("no".to_string()));
    assert_eq!(text.render("{{#if value}}yes{{else}}no{{/if}}"), Some("yes".to_string()));
    assert_eq!(zero.render("{{value}}"), Some("0".to_string()));
    let large = TemplateData::new().with_number("value", u64::MAX);
    assert_eq!(large.render("{{value}}"), Some("18446744073709551615".to_string()));
}

#[test]
fn texts_are_escaped_for_markup() {
    let data = TemplateData::new().with_text("chip_name", "<a & b>");
    assert_eq!(data.render("{{chip_name}}"), Some("&lt;a &amp; b&gt;".to_string()));
    assert_eq!(data.render("{{{chip_name}}}"), Some("<a & b>".to_string()));
}

#[test]
fn fields_are_found_whatever_the_order_they_were_added_in() {
    let one = TemplateData::new().with_number("a", 1).with_text("b", "x").with_number("c", 3);
    let other = TemplateData::new().with_number("c", 3).with_number("a", 1).with_text("b", "x");
    let template = "{{a}}{{b}}{{c}}{{#each this}}{{@key}}{{/each}}";
    assert_eq!(one.render(template), Some("1x3abc".to_string()));
    assert_eq!(other.render(template), Some("1x3abc".to_string()));
}

#[test]
fn empty_data_renders_plain_text() {
    assert_eq!(TemplateData::new().render(""), Some(String::new()));
    assert_eq!(TemplateData::new().render("Killed daemon"), Some("Killed daemon".to_string()));
}

#[test]
fn a_template_that_includes_a_partial_is_not_rendered() {
    let data = TemplateData::new().with_number("pump_number", 3);
    for template in [
        "{{> x}}",
        "{{>x}}",
        "{{ > x}}",
        "{{~> x}}",
        "{{~ > x}}",
        "{{#> x}}y{{/x}}",
        "{{ ~ # \t\r\n > x}}y{{/x}}",
        "{{#*inline \"x\"}}{{> x}}{{/inline}}{{> x}}",
        "{{#*inline \"x\"}}{{pump_number}}{{/inline}}{{> x}}",
        "{{{> x}}",
        "a{{pump_number}}b{{> @partial-block}}",
        "{{! a comment }}{{>x}}",
    ] {
        assert!(may_include_partial(template), "{:?}", template);
        assert_eq!(data.render(template), None, "{:?}", template);
    }
    let string = StringElement { name: "loop".to_string(), content: "{{#*inline \"x\"}}{{> x}}{{/inline}}{{> x}}".to_string() };
    let service = ResourceService::new(ResourcesElement { strings: vec![string] });
    assert_eq!(service.render_resource_template_string_by_name("loop", &data), None);
}

#[test]
fn a_template_without_partial_is_rendered() {
    let data = TemplateData::new().with_number("pump_number", 3);
    for (template, rendered) in [
        ("", ""),
        (">", ">"),
        ("{>", "{>"),
        ("{{pump_number}} > 2", "3 > 2"),
        ("a > b {{pump_number}}", "a > b 3"),
        ("{{#if pump_number}}>{{/if}}", ">"),
        ("{{pump_number}}>", "3>"),
        ("{ {> x", "{ {> x"),
        ("{{#*inline \"x\"}}{{pump_number}}{{/inline}}done", "done"),
    ] {
        assert!(!may_include_partial(template), "{:?}", template);
        assert_eq!(data.render(template), Some(rendered.to_string()), "{:?}", template);
    }
}
