use elm_ui::element::{
    add_when, get_height, height, max, min, mouse_down, move_up, new_tablink, px, rgba255,
    shrink, text, text_column,
};
use elm_ui::gather::{text_element_classes, text_element_fill_classes, NearbyChildren};
use elm_ui::layout::{add_keyed_children, element};
use elm_ui::length::Length;
use elm_ui::model::{Attribute, Children, Element, LayoutContext, NodeName};
use elm_ui::num::Fixed;
use elm_ui::reduce::reduce_recursive;
use elm_ui::render::to_grid_len_helper;
use elm_ui::style::{Color, Shadow, Style};
use elm_ui::transform::TransformComponent;
use elm_ui::vdom::node;

#[test]
fn colours_from_255_keep_each_channel() {
    let c = rgba255(10, 20, 30, Fixed::from_units(5000));
    assert_eq!(c.format_color_class(), "rgba(10,20,30,128)");
}

#[test]
fn moving_up_negates() {
    match move_up(Fixed::from_int(3)) {
        Attribute::TransformComponent(_, TransformComponent::MoveY(y)) => {
            assert_eq!(y, Fixed::from_int(-3))
        }
        _ => panic!("a move"),
    }
}

#[test]
fn new_tab_links_target_blank() {
    let l = new_tablink(vec![], "u".to_string(), text("x".to_string()));
    let args = match &l {
        Element::Unstyled(a) => a,
        Element::Styled(s) => &s.html,
        _ => panic!("a node"),
    };
    assert!(args.attributes.iter().any(|a| a.0 == "target=_blank"));
    assert!(args.attributes.iter().any(|a| a.0 == "rel=noopener noreferrer"));
}

#[test]
fn mouse_down_is_active() {
    match mouse_down(vec![]) {
        Attribute::Style(_, Style::PseudoSelector(p, styles)) => {
            assert_eq!(p, elm_ui::style::PseudoClass::Active);
            assert_eq!(styles.len(), 1);
        }
        _ => panic!("a pseudo selector"),
    }
}

#[test]
fn add_when_puts_first_only_when_asked() {
    assert_eq!(add_when(true, 1, vec![2, 3]), vec![1, 2, 3]);
    assert_eq!(add_when(false, 1, vec![2, 3]), vec![2, 3]);
}

#[test]
fn heights_and_their_rules() {
    assert_eq!(get_height(&vec![height(px(3)), height(shrink())]), Some(Length::Content));
    assert_eq!(get_height(&vec![]), None);
    let (_, class, styles) = Length::Min(5, Box::new(Length::Px(9))).render_height();
    assert_eq!(class, "min-height-5 he height-px-9");
    assert_eq!(styles.len(), 2);
    match &styles[0] {
        Style::Single(_, _, v) => assert_eq!(v, "5px !important"),
        _ => panic!("a single rule"),
    }
}

#[test]
fn grid_lengths_within_bounds() {
    assert_eq!(to_grid_len_helper(&None, &None, &Length::Fill(2)), "2fr");
    assert_eq!(to_grid_len_helper(&None, &None, &min(10, Length::Content)), "minmax(10px, max-content)");
    assert_eq!(to_grid_len_helper(&None, &None, &max(30, Length::Fill(1))), "minmax(max-content, 30px)");
}

#[test]
fn text_classes() {
    assert_eq!(text_element_classes(), "s t wc hc");
    assert_eq!(text_element_fill_classes(), "s t wf hf");
}

#[test]
fn shadow_texts() {
    let s = Shadow {
        color: Color { r: Fixed::from_int(0), g: Fixed::from_int(0), b: Fixed::from_int(0), a: Fixed::from_int(1) },
        offset: (1, 2),
        blur: 3,
        size: 4,
    };
    assert_eq!(s.format_box_shadow(true), "inset 1px 2px 3px 4px rgba(0,0,0,1)");
    assert_eq!(s.box_shadow_class(false), "box-255px510px765px1020pxrgba(0,0,0,1)");
    assert_eq!(s.text_shadow_class(), "txt255px510px765pxrgba(0,0,0,1)");
    assert_eq!(s.format_text_shadow(), "1px 2px 3px rgba(0,0,0,1)");
}

#[test]
fn runs_of_a_name_keep_their_last() {
    let named = |n: &str, v: &str| (n.to_string(), Style::Single(v.to_string(), "p".to_string(), "v".to_string()));
    let out = reduce_recursive(vec![], vec![named("a", "a1"), named("a", "a2"), named("b", "b1")]);
    let names: Vec<String> = out.iter().map(|s| s.name()).collect();
    assert_eq!(names, vec!["b1", "a2"]);
}

#[test]
fn text_column_is_bounded() {
    let e = text_column(vec![], vec![]);
    let args = match &e {
        Element::Styled(s) => &s.html,
        _ => panic!("a styled element"),
    };
    assert!(args.attributes[0].0.contains("min-width-500"));
    assert!(args.attributes[0].0.contains("max-width-750"));
}

#[test]
fn keyed_children_keep_their_keys() {
    let e = element(
        LayoutContext::AsColumn,
        NodeName::Generic,
        vec![],
        Children::Keyed(vec![("k1".to_string(), text("a".to_string())), ("k2".to_string(), Element::Empty)]),
    );
    let args = match &e {
        Element::Unstyled(a) => a,
        _ => panic!("an unstyled element"),
    };
    match &args.children {
        Children::Keyed(k) => {
            assert_eq!(k.len(), 1);
            assert_eq!(k[0].0, "k1");
        }
        _ => panic!("keyed children"),
    }
    let empty = node("div".to_string(), vec![], vec![]);
    let out = add_keyed_children(
        "near".to_string(),
        vec![("x".to_string(), empty)],
        NearbyChildren::Behind(vec![node("p".to_string(), vec![], vec![])]),
    );
    assert_eq!(out.len(), 2);
    assert_eq!(out[0].0, "near");
    assert_eq!(out[0].1.tag, "p");
}
