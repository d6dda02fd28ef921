use elm_ui::adjust::typeface_adjustment;
use elm_ui::classes::{column_class, row_class, Classes};
use elm_ui::element::{
    align_right, center_x, classify_device, el, filter, fill, get_spacing, get_width, height,
    image, link, mouse_over, padding, padding_xy, px, rgb255, root_style, scale, shrink,
    spacing, spacing_xy, text, width, wrapped_row, DeviceClass, Orientation,
};
use elm_ui::finalize::{embed_with, finalize_node};
use elm_ui::flag::{Field, Flag};
use elm_ui::gather::{nearby_el, text_element};
use elm_ui::input::{hidden_label_attr, label_above, label_hidden, label_right, Label};
use elm_ui::length::Length;
use elm_ui::model::{
    Attribute, Children, Description, Element, EmbedStyle, LayoutContext, Location, NodeName,
};
use elm_ui::num::{i64_str, u64_str, Fixed};
use elm_ui::options::{Opt, OptStruct, RenderMode};
use elm_ui::render::{render_style, todo_render_style_rule};
use elm_ui::sheet::to_stylesheet_str;
use elm_ui::style::{Adjustment, Font, FontWith, Property, PseudoClass, Style, Variant};
use elm_ui::vdom::{add_class, organize_facts, Fact, FactContent, Node, NodeType};

#[test]
fn numbers_render_in_decimal() {
    assert_eq!(u64_str(0), "0");
    assert_eq!(u64_str(1234567890), "1234567890");
    assert_eq!(i64_str(-42), "-42");
    assert_eq!(i64_str(i64::MIN), "-9223372036854775808");
    assert_eq!(Fixed::from_units(15708).to_text(), "1.5708");
    assert_eq!(Fixed::from_units(-5000).to_text(), "-0.5");
    assert_eq!(Fixed::from_units(100).to_text(), "0.01");
    assert_eq!(Fixed::from_int(7).to_text(), "7");
    assert_eq!(Fixed::from_units(5000).float_class(), 128);
    assert_eq!(Fixed::from_units(-1).float_class(), 0);
}

#[test]
fn class_names_of_layouts() {
    assert_eq!(row_class(), "s r");
    assert_eq!(column_class(), "s c");
    assert_eq!(Classes::WidthFill.to_string(), "wf");
}

#[test]
fn colour_text_uses_channels_of_255() {
    let c = rgb255(155, 203, 255);
    assert_eq!(c.format_color(), "rgba(155,203,255,1)");
    assert_eq!(c.format_color_class(), "rgba(155,203,255,255)");
}

#[test]
fn hover_rules_follow_the_setting() {
    let props = || vec![Property("color".to_string(), "red".to_string())];
    let mut opts = OptStruct::default();
    let r = render_style(&opts, &Some(PseudoClass::Hover), ".a".to_string(), props());
    assert_eq!(r, vec![".a-hv:hover {\n  color: red;\n}".to_string()]);
    opts = OptStruct::from_opts(vec![Opt::Hover(elm_ui::options::HoverSetting::Force)]);
    let r = render_style(&opts, &Some(PseudoClass::Hover), ".a".to_string(), props());
    assert_eq!(r, vec![".a-hv {\n  color: red !important;\n}".to_string()]);
    opts = OptStruct::from_opts(vec![Opt::Hover(elm_ui::options::HoverSetting::No)]);
    assert!(render_style(&opts, &Some(PseudoClass::Hover), ".a".to_string(), props()).is_empty());
    let r = render_style(&opts, &Some(PseudoClass::Focus), ".a".to_string(), props());
    assert_eq!(r.len(), 4);
    let r = render_style(&opts, &None, ".a".to_string(), props());
    assert_eq!(r, vec![".a {\n  color: red;\n}".to_string()]);
}

#[test]
fn first_option_of_each_kind_wins() {
    let o = OptStruct::from_opts(vec![
        Opt::Render(RenderMode::WithVirtualCSS),
        Opt::Render(RenderMode::NoStaicStyleSheet),
    ]);
    assert_eq!(o.mode, RenderMode::WithVirtualCSS);
    assert_eq!(o.hover, elm_ui::options::HoverSetting::Allow);
}

#[test]
fn spacing_renders_its_companion_rules() {
    let opts = OptStruct::default();
    let rules = todo_render_style_rule(&opts, &Style::Spacing("spacing-7-3".to_string(), 7, 3), &None);
    assert_eq!(rules.len(), 12);
    assert_eq!(rules[0], ".spacing-7-3.r > .s + .s {\n  margin-left: 7px;\n}");
    assert_eq!(rules[1], ".spacing-7-3.wrp.r > .s {\n  margin: 1.5px 3.5px;\n}");
    assert!(rules[10].contains("margin-top: -1px;"));
}

#[test]
fn padding_and_grid_rules() {
    let opts = OptStruct::default();
    let p = Style::Padding(
        "pad".to_string(),
        Fixed::from_int(1),
        Fixed::from_int(2),
        Fixed::from_units(25000),
        Fixed::from_int(4),
    );
    assert_eq!(
        todo_render_style_rule(&opts, &p, &None),
        vec![".pad {\n  padding: 1px 2px 2.5px 4px;\n}".to_string()]
    );
    let g = Style::GridPosition(elm_ui::style::GridPosition { row: 1, col: 2, width: 3, height: 4 });
    let r = todo_render_style_rule(&opts, &g, &None);
    assert_eq!(r[0], ".grid-pos-1-2-3-4{-ms-grid-row: 1; -ms-grid-row-span: 4; -ms-grid-column: 2; -ms-grid-column-span: 3;}");
    assert_eq!(r[1], "@supports (display:grid) {.grid-pos-1-2-3-4{grid-row: 1 / 5; grid-column: 2 / 5;}}");
}

#[test]
fn font_family_names_are_lowercased_and_dashed() {
    let attrs = root_style();
    match &attrs[3] {
        Attribute::Style(_, Style::FontFamily(name, fonts)) => {
            assert_eq!(name, "font-open-sanshelveticaverdanasans-serif");
            assert_eq!(fonts.len(), 4);
        }
        _ => panic!("expected a font family"),
    }
}

#[test]
fn stylesheet_holds_font_imports_and_line_heights() {
    let opts = OptStruct::default();
    let family = Style::FontFamily(
        "font-x".to_string(),
        vec![Font::ImportFont("X".to_string(), "http://x".to_string()), Font::Serif],
    );
    let css = to_stylesheet_str(&opts, &vec![family]);
    assert!(css.starts_with("@import url('http://x');"));
    assert!(css.contains(".font-x.cap, .font-x .cap {line-height: 1;}"));
    assert!(css.contains("font-family: \"X\" ,serif;"));
}

#[test]
fn typeface_metrics_give_adjustment_rules() {
    let with = Font::FontWith(FontWith {
        name: "M".to_string(),
        adjustment: Some(Adjustment {
            capital: Fixed::from_units(8000),
            lowercase: Fixed::from_units(6000),
            baseline: Fixed::from_units(2000),
            descender: Fixed::from_units(0),
        }),
        variants: vec![Variant::Active("smcp".to_string())],
    });
    let rules = typeface_adjustment(&vec![Font::Serif, with]).expect("metrics give rules");
    assert_eq!(rules.full.1[2].1, "0.2em");
    assert_eq!(rules.full.1[3].1, "1.25em");
    assert_eq!(rules.capital.1[3].1, "1.6666em");
    assert!(typeface_adjustment(&vec![Font::Serif]).is_none());
}

#[test]
fn organize_facts_adds_classes_and_keeps_last_values() {
    let f = |k: &str, v: &str| FactContent { key: k.to_string(), val: v.to_string() };
    let o = organize_facts(vec![
        Fact::Attr(f("class", "a")),
        Fact::Attr(f("id", "x")),
        Fact::Attr(f("class", "b")),
        Fact::Attr(f("id", "y")),
        Fact::Prop(f("className", "c")),
        Fact::Event(f("click", "z")),
    ]);
    assert_eq!(
        o.attrs,
        vec![("class".to_string(), "a b".to_string()), ("id".to_string(), "y".to_string())]
    );
    assert_eq!(o.props, vec![("className".to_string(), "c".to_string())]);
    let mut m = vec![];
    add_class(&mut m, "class".to_string(), "p".to_string());
    add_class(&mut m, "class".to_string(), "q".to_string());
    assert_eq!(m, vec![("class".to_string(), "p q".to_string())]);
}

#[test]
fn filter_keeps_last_of_each_kind() {
    let attrs = vec![
        width(px(1)),
        Attribute::NoAttribute,
        height(shrink()),
        width(px(2)),
        Attribute::html_class("k".to_string()),
        center_x(),
        align_right(),
    ];
    let out = filter(attrs);
    assert_eq!(out.len(), 4);
    assert!(matches!(out[0], Attribute::Height(Length::Content)));
    assert!(matches!(out[1], Attribute::Width(Length::Px(2))));
    assert!(matches!(out[2], Attribute::Attr(_)));
    assert!(matches!(out[3], Attribute::AlignX(elm_ui::model::HAlign::Right)));
}

#[test]
fn getters_take_the_last_value() {
    let attrs = vec![width(px(1)), spacing(3), width(fill()), spacing_xy(4, 5)];
    assert_eq!(get_width(&attrs), Some(Length::Fill(1)));
    assert_eq!(get_spacing(&attrs, (0, 0)), (4, 5));
    assert_eq!(get_spacing(&vec![], (9, 8)), (9, 8));
}

#[test]
fn devices_by_window_size() {
    let d = classify_device(500, 900);
    assert_eq!(d.class, DeviceClass::Phone);
    assert_eq!(d.orientation, Orientation::Portrait);
    assert_eq!(classify_device(1200, 800).class, DeviceClass::Tablet);
    assert_eq!(classify_device(1920, 1080).class, DeviceClass::Desktop);
    assert_eq!(classify_device(2560, 1440).class, DeviceClass::BigDesktop);
}

#[test]
fn labels() {
    assert!(Label::is_stacked(label_above(vec![], text("a".to_string()))));
    assert!(!Label::is_stacked(label_right(vec![], text("a".to_string()))));
    match hidden_label_attr(label_hidden("name".to_string())) {
        Attribute::Describe(Description::Label(l)) => assert_eq!(l, "name"),
        _ => panic!("expected a label description"),
    }
    assert!(matches!(hidden_label_attr(label_right(vec![], text("a".to_string()))), Attribute::NoAttribute));
}

#[test]
fn mouse_over_nests_styles_under_hover() {
    let a = mouse_over(vec![Attribute::Style(
        Flag::font_color(),
        Style::Single("fc-red".to_string(), "color".to_string(), "red".to_string()),
    ), scale(Fixed::from_int(2))]);
    match a {
        Attribute::Style(f, s) => {
            assert_eq!(f, Flag::hover());
            assert_eq!(s.name(), "hv-trfm-0-0-0-510-510-255-0-0-255-0 hv-fc-red");
        }
        _ => panic!("expected a style"),
    }
}

#[test]
fn wrapped_row_with_room_in_padding_compensates() {
    let e = wrapped_row(vec![spacing(10), padding(20)], vec![text("x".to_string())]);
    match e {
        Element::Styled(s) => {
            let names: Vec<String> = s.styles.iter().map(|x| x.name()).collect();
            assert!(names.contains(&"spacing-10-10".to_string()));
            let class = s.html.attributes[0].0.clone();
            assert!(class.contains("pad-5100-5100-5100-5100"));
            assert!(s.html.attributes.iter().any(|a| a.0.contains("wrp")));
            assert!(!class.contains("p-20"));
        }
        _ => panic!("a styled element"),
    }
}

#[test]
fn wrapped_row_without_room_nests_a_row() {
    let e = wrapped_row(vec![spacing(10), padding_xy(2, 2)], vec![text("x".to_string())]);
    match e {
        Element::Styled(s) => {
            let class = s.html.attributes[0].0.clone();
            assert!(class.ends_with("s e"));
            assert!(!class.contains("wrp"));
        }
        _ => panic!("a styled element"),
    }
}

#[test]
fn image_and_link_elements() {
    let img = image(vec![width(px(30))], "a.png".to_string(), "pic".to_string());
    assert!(matches!(img, Element::Styled(_)));
    let l = link(vec![], "http://a".to_string(), text("go".to_string()));
    let args = match &l {
        Element::Unstyled(a) => a,
        Element::Styled(s) => &s.html,
        _ => panic!("a node"),
    };
    assert!(matches!(&args.node, NodeName::NodeName(n) if n == "a"));
    assert!(args.attributes.iter().any(|a| a.0 == "href=http://a"));
}

#[test]
fn nearby_and_finalize_in_a_row() {
    let n = nearby_el(&Location::Below, text("hint".to_string()));
    assert_eq!(n.attrs[0].0, "nb e b");
    let mut has = Field::none();
    has.add(&Flag::align_right());
    let node = finalize_node(
        has,
        NodeName::Generic,
        vec![],
        Children::Unkeyed(vec![text_element(&"t".to_string())]),
        EmbedStyle::NoStyleSheet,
        LayoutContext::AsRow,
    );
    assert_eq!(node.tag, "u");
    assert_eq!(node.attrs[0].0, "s e ctr ccy acr");
    let mut fill_has = Field::none();
    fill_has.add(&Flag::width_fill());
    let plain = finalize_node(
        fill_has,
        NodeName::NodeName("p".to_string()),
        vec![],
        Children::Unkeyed(vec![]),
        EmbedStyle::NoStyleSheet,
        LayoutContext::AsRow,
    );
    assert_eq!(plain.tag, "div");
}

#[test]
fn embedding_puts_stylesheets_first() {
    let opts = OptStruct::default();
    let styles = vec![Style::FontSize(40), Style::FontSize(40)];
    let kids = vec![NodeType::Text("k".to_string())];
    let out = embed_with(true, &opts, &styles, kids);
    assert_eq!(out.len(), 3);
    let sheet = match &out[1] {
        NodeType::Node(n) => n,
        _ => panic!("a node"),
    };
    let mut css = String::new();
    fn walk(n: &Node, out: &mut String) {
        for c in &n.children {
            match c {
                NodeType::Node(x) => walk(x, out),
                NodeType::KeyedNode(_, x) => walk(x, out),
                NodeType::Text(t) => out.push_str(t),
            }
        }
    }
    walk(sheet, &mut css);
    assert_eq!(css.matches(".font-size-40 {").count(), 1);
    assert!(css.contains("focus-within"));
    assert!(matches!(&out[2], NodeType::Text(t) if t == "k"));
}

#[test]
fn el_shrinks_by_default() {
    let e = el(vec![height(px(5))], text("a".to_string()));
    let args = match &e {
        Element::Styled(s) => &s.html,
        _ => panic!("a styled element"),
    };
    let class = &args.attributes[0].0;
    assert!(class.contains("wc"));
    assert!(class.contains("height-px-5"));
}
