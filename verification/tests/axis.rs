use pgfplots::axis::{Axis, AxisKey, XMode, YMode};

fn custom(text: &str) -> AxisKey {
    AxisKey::Custom(String::from(text))
}

#[test]
fn xmode_values_render_in_lower_case() {
    assert_eq!(XMode::Log.render(), "log");
    assert_eq!(XMode::Normal.render(), "normal");
}

#[test]
fn ymode_values_render_in_lower_case() {
    assert_eq!(YMode::Log.render(), "log");
    assert_eq!(YMode::Normal.render(), "normal");
}

#[test]
fn custom_axis_key_renders_verbatim() {
    assert_eq!(custom("grid=major").render(), "grid=major");
    assert_eq!(custom("title={a, b}").render(), "title={a, b}");
}

#[test]
fn custom_axis_key_is_written_as_given() {
    assert_eq!(custom("").render(), "");
    assert_eq!(custom("]\n\\end{axis}").render(), "]\n\\end{axis}");
    assert_eq!(custom("  spaced  ").render(), "  spaced  ");
    assert_eq!(custom("größe=µ").render(), "größe=µ");
}

#[test]
fn xmode_key_renders_as_name_and_value() {
    assert_eq!(AxisKey::XMode(XMode::Log).render(), "xmode=log");
    assert_eq!(AxisKey::XMode(XMode::Normal).render(), "xmode=normal");
}

#[test]
fn ymode_key_renders_as_name_and_value() {
    assert_eq!(AxisKey::YMode(YMode::Log).render(), "ymode=log");
    assert_eq!(AxisKey::YMode(YMode::Normal).render(), "ymode=normal");
}

#[test]
fn axis_without_keys_has_no_brackets() {
    let axis = Axis::new();
    assert_eq!(axis.render(), "\\begin{axis}\n\\end{axis}");
    assert!(!axis.render().contains('['));
    assert!(!axis.render().contains(']'));
}

#[test]
fn axis_with_xmode_log_has_one_option_line() {
    let mut axis = Axis::new();
    axis.add_key(AxisKey::XMode(XMode::Log));
    let text = axis.render();
    assert_eq!(text, "\\begin{axis}[\n\txmode=log,\n]\n\\end{axis}");
    let lines: Vec<&str> = text.lines().collect();
    assert_eq!(lines, vec!["\\begin{axis}[", "\txmode=log,", "]", "\\end{axis}"]);
}

#[test]
fn axis_keys_render_in_the_order_added() {
    let mut axis = Axis::new();
    axis.add_key(AxisKey::YMode(YMode::Normal));
    axis.add_key(custom("grid=major"));
    axis.add_key(AxisKey::XMode(XMode::Log));
    assert_eq!(
        axis.render(),
        "\\begin{axis}[\n\tymode=normal,\n\tgrid=major,\n\txmode=log,\n]\n\\end{axis}"
    );
}

#[test]
fn axis_keeps_repeated_keys() {
    let mut axis = Axis::new();
    axis.add_key(custom("a"));
    axis.add_key(custom("b"));
    axis.add_key(custom("a"));
    assert_eq!(axis.render(), "\\begin{axis}[\n\ta,\n\tb,\n\ta,\n]\n\\end{axis}");
}

#[test]
fn axis_keeps_both_of_two_keys_for_one_property() {
    let mut axis = Axis::new();
    axis.add_key(AxisKey::XMode(XMode::Log));
    axis.add_key(AxisKey::XMode(XMode::Normal));
    assert_eq!(
        axis.render(),
        "\\begin{axis}[\n\txmode=log,\n\txmode=normal,\n]\n\\end{axis}"
    );
}

#[test]
fn axis_with_empty_custom_key_still_writes_its_line() {
    let mut axis = Axis::new();
    axis.add_key(custom(""));
    assert_eq!(axis.render(), "\\begin{axis}[\n\t,\n]\n\\end{axis}");
}

#[test]
fn axis_renders_the_same_text_twice() {
    let mut axis = Axis::new();
    axis.add_key(AxisKey::XMode(XMode::Log));
    axis.add_key(custom("grid=major"));
    let first = axis.render();
    let second = axis.render();
    assert_eq!(first, second);
}

#[test]
fn axis_can_be_changed_after_rendering() {
    let mut axis = Axis::new();
    assert_eq!(axis.render(), "\\begin{axis}\n\\end{axis}");
    axis.add_key(AxisKey::YMode(YMode::Log));
    assert_eq!(axis.render(), "\\begin{axis}[\n\tymode=log,\n]\n\\end{axis}");
    axis.add_key(custom("width=5cm"));
    assert_eq!(
        axis.render(),
        "\\begin{axis}[\n\tymode=log,\n\twidth=5cm,\n]\n\\end{axis}"
    );
}

#[test]
fn axis_key_clone_renders_like_its_source() {
    let keys = vec![
        custom("grid=major"),
        AxisKey::XMode(XMode::Normal),
        AxisKey::YMode(YMode::Log),
    ];
    for key in keys.iter() {
        assert_eq!(key.clone().render(), key.render());
    }
}

#[test]
fn axis_clone_is_independent_of_its_source() {
    let mut axis = Axis::new();
    axis.add_key(custom("grid=major"));
    let mut copy = axis.clone();
    assert_eq!(copy.render(), axis.render());
    copy.add_key(AxisKey::XMode(XMode::Log));
    assert_eq!(axis.render(), "\\begin{axis}[\n\tgrid=major,\n]\n\\end{axis}");
    assert_eq!(
        copy.render(),
        "\\begin{axis}[\n\tgrid=major,\n\txmode=log,\n]\n\\end{axis}"
    );
}

#[test]
fn modes_are_copied_by_value() {
    let x = XMode::Log;
    let y = YMode::Normal;
    let x2 = x;
    let y2 = y;
    assert_eq!(x.render(), x2.render());
    assert_eq!(y.render(), y2.render());
}
