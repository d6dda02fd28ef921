use elm_ui::element::{
    alpha, el, fill, fill_portion, layout, move_right, padding, padding_each, px, rotate, row,
    spacing, text, width,
};
use elm_ui::flag::Flag;
use elm_ui::layout::element;
use elm_ui::length::Length;
use elm_ui::model::{Attribute, Children, Element, LayoutContext, NodeName};
use elm_ui::num::Fixed;
use elm_ui::reduce::reduce;
use elm_ui::style::{skippable, GridPosition, PseudoClass, Style};
use elm_ui::transform::{Coordinate, Transform, TransformComponent};
use elm_ui::vdom::{Node, NodeType};

fn single(class: &str) -> Style {
    Style::Single(class.to_string(), "width".to_string(), "10px".to_string())
}

fn names(styles: &Vec<Style>) -> Vec<String> {
    styles.iter().map(|s| s.name()).collect()
}

fn collect_text(n: &Node, out: &mut String) {
    for c in &n.children {
        match c {
            NodeType::Node(x) => collect_text(x, out),
            NodeType::KeyedNode(_, x) => collect_text(x, out),
            NodeType::Text(t) => out.push_str(t),
        }
    }
}

fn collect_attrs(n: &Node, out: &mut Vec<String>) {
    for a in &n.attrs {
        out.push(a.0.clone());
    }
    for c in &n.children {
        match c {
            NodeType::Node(x) => collect_attrs(x, out),
            NodeType::KeyedNode(_, x) => collect_attrs(x, out),
            NodeType::Text(_) => {}
        }
    }
}

fn gathered_styles(e: &Element) -> Vec<String> {
    match e {
        Element::Styled(s) => names(&s.styles),
        _ => vec![],
    }
}

fn gathered_class(e: &Element) -> String {
    let args = match e {
        Element::Styled(s) => &s.html,
        Element::Unstyled(a) => a,
        _ => panic!("not a node element"),
    };
    args.attributes[0].0.clone()
}

#[test]
fn equal_payloads_give_equal_names() {
    assert_eq!(Style::FontSize(12).name(), Style::FontSize(12).name());
    let p = GridPosition { row: 1, col: 2, width: 3, height: 4 };
    assert_eq!(Style::GridPosition(p).name(), Style::GridPosition(p).name());
    assert_eq!(Style::GridPosition(p).name(), "gp grid-pos-1-2-3-4");
}

#[test]
fn differing_payloads_give_differing_names() {
    let samples = vec![
        Style::FontSize(12),
        Style::FontSize(13),
        Style::GridPosition(GridPosition { row: 1, col: 2, width: 3, height: 4 }),
        Style::GridPosition(GridPosition { row: 1, col: 2, width: 3, height: 5 }),
        single("a"),
        single("b"),
        Style::Transform(Transform::Moved(Coordinate {
            x: Fixed::from_int(1),
            y: Fixed::from_int(0),
            z: Fixed::from_int(0),
        })),
        Style::PseudoSelector(PseudoClass::Hover, vec![single("a")]),
        Style::PseudoSelector(PseudoClass::Focus, vec![single("a")]),
    ];
    let n = names(&samples);
    for i in 0..n.len() {
        for j in 0..n.len() {
            if i != j {
                assert_ne!(n[i], n[j]);
            }
        }
    }
    assert_eq!(n[7], "hv-a");
    assert_eq!(n[0], "font-size-12");
}

#[test]
fn reduce_keeps_first_of_each_name_in_order() {
    let xs = vec![single("b"), single("a"), single("b"), Style::FontSize(9), single("a")];
    let once = reduce(&xs);
    assert_eq!(names(&once), vec!["b", "a", "font-size-9"]);
    let twice = reduce(&once);
    assert_eq!(names(&twice), names(&once));
}

#[test]
fn reduce_of_empty_is_empty() {
    assert!(reduce(&vec![]).is_empty());
}

#[test]
fn last_width_in_author_order_wins() {
    let e = element(
        LayoutContext::AsEl,
        NodeName::Generic,
        vec![width(px(10)), width(px(20))],
        Children::Unkeyed(vec![]),
    );
    let class = gathered_class(&e);
    assert!(class.contains("width-px-20"));
    assert!(!class.contains("width-px-10"));
    assert_eq!(gathered_styles(&e), vec!["width-px-20"]);
}

#[test]
fn fill_portion_one_is_plain_fill() {
    let (_, class, styles) = fill_portion(1).render_width();
    assert_eq!(class, "wf");
    assert!(styles.is_empty());
    let (_, class, styles) = fill().render_width();
    assert_eq!(class, "wf");
    assert!(styles.is_empty());
}

#[test]
fn fill_portion_three_grows_by_three_hundred_thousand() {
    let (_, class, styles) = fill_portion(3).render_width();
    assert_eq!(class, "wfp width-fill-3");
    assert_eq!(styles.len(), 1);
    match &styles[0] {
        Style::Single(sel, prop, val) => {
            assert_eq!(sel, "s.r > .width-fill-3");
            assert_eq!(prop, "flex-grow");
            assert_eq!(val, "300000");
        }
        _ => panic!("expected a single rule"),
    }
}

fn quarter_turn() -> Fixed {
    Fixed::from_units((std::f64::consts::FRAC_PI_2 * 10000.0).round() as i64)
}

fn compose_attrs(attrs: Vec<Attribute>) -> Transform {
    let mut t = Transform::Untransformed;
    for a in attrs {
        if let Attribute::TransformComponent(_, c) = a {
            t = t.compose(&c);
        }
    }
    t
}

#[test]
fn move_then_rotate_renders_full_transform() {
    let t = compose_attrs(vec![move_right(Fixed::from_int(10)), rotate(quarter_turn())]);
    assert_eq!(
        t.value().unwrap(),
        "translate3d(10px, 0px, 0px) scale3d(1,1,1) rotate3d(0,0,1,1.5708rad)"
    );
    match t {
        Transform::FullTransform(..) => {}
        _ => panic!("expected a full transform"),
    }
}

#[test]
fn rotate_then_move_gives_the_same_transform() {
    let a = compose_attrs(vec![move_right(Fixed::from_int(10)), rotate(quarter_turn())]);
    let b = compose_attrs(vec![rotate(quarter_turn()), move_right(Fixed::from_int(10))]);
    assert_eq!(a, b);
    assert_eq!(a.class(), b.class());
}

#[test]
fn moves_only_give_a_translation() {
    let t = Transform::Untransformed.compose(&TransformComponent::MoveY(Fixed::from_units(-25000)));
    assert_eq!(t.value().unwrap(), "translate3d(0px, -2.5px, 0px)");
    assert_eq!(t.class().unwrap(), "mv-0--2.5-0");
    assert_eq!(Transform::Untransformed.value(), None);
}

fn transparency_of(a: Attribute) -> (String, Fixed) {
    match a {
        Attribute::Style(_, Style::Transparency(name, t)) => (name, t),
        _ => panic!("expected a transparency"),
    }
}

#[test]
fn alpha_half_rounds_to_128() {
    let (name, t) = transparency_of(alpha(Fixed::from_units(5000)));
    assert_eq!(t, Fixed::from_units(5000));
    assert_eq!(name, "transparency-128");
}

#[test]
fn alpha_is_held_to_zero_and_one() {
    let (name, t) = transparency_of(alpha(Fixed::from_int(0)));
    assert_eq!(t, Fixed::from_int(1));
    assert_eq!(name, "transparency-255");
    let (name, t) = transparency_of(alpha(Fixed::from_int(1)));
    assert_eq!(t, Fixed::from_int(0));
    assert_eq!(name, "transparency-0");
    let (_, t) = transparency_of(alpha(Fixed::from_int(3)));
    assert_eq!(t, Fixed::from_int(0));
    let (_, t) = transparency_of(alpha(Fixed::from_int(-2)));
    assert_eq!(t, Fixed::from_int(1));
}

fn padding_style(a: &Attribute) -> &Style {
    match a {
        Attribute::Style(_, s) => s,
        _ => panic!("expected a style"),
    }
}

#[test]
fn padding_of_24_is_skippable() {
    let p = padding(24);
    assert!(skippable(&Flag::padding(), padding_style(&p)));
    let e = element(LayoutContext::AsEl, NodeName::Generic, vec![padding(24)], Children::Unkeyed(vec![]));
    assert!(gathered_class(&e).contains("p-24"));
    assert!(gathered_styles(&e).is_empty());
}

#[test]
fn padding_of_25_is_not_skippable() {
    let p = padding(25);
    assert!(!skippable(&Flag::padding(), padding_style(&p)));
    let e = element(LayoutContext::AsEl, NodeName::Generic, vec![padding(25)], Children::Unkeyed(vec![]));
    assert!(gathered_class(&e).contains("p-25"));
    assert_eq!(gathered_styles(&e), vec!["p-25"]);
}

#[test]
fn non_uniform_padding_is_never_skippable() {
    let p = padding_each(5, 10, 5, 10);
    assert!(!skippable(&Flag::padding(), padding_style(&p)));
    assert_eq!(padding_style(&p).name(), "pad-5-10-5-10");
    let q = padding_each(1, 2, 3, 4);
    assert!(!skippable(&Flag::padding(), padding_style(&q)));
}

#[test]
fn row_with_spacing_and_padding_end_to_end() {
    let r = row(
        vec![spacing(7), padding(10)],
        vec![el(vec![], text("a".to_string())), el(vec![], text("b".to_string()))],
    );
    let node = layout(vec![], r);
    let mut attrs = Vec::new();
    collect_attrs(&node, &mut attrs);
    let row_class = attrs
        .iter()
        .find(|a| a.contains("spacing-7-7"))
        .expect("a row class with the spacing");
    assert!(row_class.contains("p-10"));
    let mut css = String::new();
    collect_text(&node, &mut css);
    assert_eq!(css.matches(".spacing-7-7.r > .s + .s {\n  margin-left: 7px;\n}").count(), 1);
    assert_eq!(css.matches(".p-10 {padding:10px;}").count(), 1);
    assert!(css.contains("a"));
    assert!(css.contains("b"));
}

#[test]
fn row_children_are_divs_around_text() {
    let r = row(
        vec![spacing(7), padding(10)],
        vec![el(vec![], text("a".to_string())), el(vec![], text("b".to_string()))],
    );
    let args = match &r {
        Element::Styled(s) => &s.html,
        _ => panic!("a row with spacing carries its style"),
    };
    let kids = match &args.children {
        Children::Unkeyed(k) => k,
        _ => panic!("unkeyed children"),
    };
    assert_eq!(kids.len(), 2);
    for (k, t) in kids.iter().zip(["a", "b"]) {
        assert_eq!(k.tag, "div");
        let inner = match &k.children[0] {
            NodeType::Node(n) => n,
            _ => panic!("a node"),
        };
        let text_div = match &inner.children[0] {
            NodeType::Node(n) => n,
            _ => panic!("a node"),
        };
        assert_eq!(text_div.tag, "div");
        match &text_div.children[0] {
            NodeType::Text(s) => assert_eq!(s, t),
            _ => panic!("a text"),
        }
    }
}

#[test]
fn length_class_names() {
    assert_eq!(Length::Px(10).class_name(), "10px");
    assert_eq!(Length::Content.class_name(), "auto");
    assert_eq!(Length::Min(5, Box::new(Length::Fill(2))).class_name(), "min52fr");
}
