use vstd::prelude::*;

use crate::classes::Classes;
use crate::flag::{Field, Flag};
use crate::num::{nat_str, u64_str};
use crate::style::{Style, StyleV};

verus! {

/// A width or a height.
#[derive(Debug, PartialEq, Eq)]
pub enum Length {
    Px(u64),
    Content,
    Fill(u64),
    Min(u64, Box<Length>),
    Max(u64, Box<Length>),
}

/// Short text of a length: `10px`, `auto`, `2fr`, `min10auto`.
pub open spec fn length_class(l: Length) -> Seq<char>
    decreases l,
{
    match l {
        Length::Px(px) => nat_str(px as nat) + "px"@,
        Length::Content => "auto"@,
        Length::Fill(i) => nat_str(i as nat) + "fr"@,
        Length::Min(m, inner) => "min"@ + nat_str(m as nat) + length_class(*inner),
        Length::Max(m, inner) => "max"@ + nat_str(m as nat) + length_class(*inner),
    }
}

/// Whether a length comes down to its content's size.
pub open spec fn length_is_content(l: Length) -> bool
    decreases l,
{
    match l {
        Length::Content => true,
        Length::Max(_, inner) => length_is_content(*inner),
        Length::Min(_, inner) => length_is_content(*inner),
        _ => false,
    }
}

/// `width` or `height`.
pub open spec fn dim_word(horizontal: bool) -> Seq<char> {
    if horizontal {
        "width"@
    } else {
        "height"@
    }
}

pub open spec fn exact_class(horizontal: bool) -> Classes {
    if horizontal {
        Classes::WidthExact
    } else {
        Classes::HeightExact
    }
}

pub open spec fn content_class(horizontal: bool) -> Classes {
    if horizontal {
        Classes::WidthContent
    } else {
        Classes::HeightContent
    }
}

pub open spec fn fill_class(horizontal: bool) -> Classes {
    if horizontal {
        Classes::WidthFill
    } else {
        Classes::HeightFill
    }
}

pub open spec fn portion_class(horizontal: bool) -> Classes {
    if horizontal {
        Classes::WidthFillPortion
    } else {
        Classes::HeightFillPortion
    }
}

/// The layout along whose axis a portion of fill grows.
pub open spec fn axis_layout_class(horizontal: bool) -> Classes {
    if horizontal {
        Classes::Row
    } else {
        Classes::Column
    }
}

pub open spec fn content_flag(horizontal: bool) -> Flag {
    if horizontal {
        Flag::spec_from(38)
    } else {
        Flag::spec_from(36)
    }
}

pub open spec fn fill_flag(horizontal: bool) -> Flag {
    if horizontal {
        Flag::spec_from(39)
    } else {
        Flag::spec_from(37)
    }
}

pub open spec fn between_flag(horizontal: bool) -> Flag {
    if horizontal {
        Flag::spec_from(44)
    } else {
        Flag::spec_from(45)
    }
}

/// The text after the pixel count of a minimum: a minimum height is
/// important, to win over the content-size correction of some engines.
pub open spec fn min_suffix(horizontal: bool) -> Seq<char> {
    if horizontal {
        "px"@
    } else {
        "px !important"@
    }
}

/// Growth weight of a portion of fill.
pub open spec fn grow_value(p: nat) -> Seq<char> {
    nat_str(p * 100000)
}

/// Flags, class names and style rules of a width (`horizontal`) or a
/// height.
pub open spec fn length_rendering(l: Length, horizontal: bool) -> (Field, Seq<char>, Seq<StyleV>)
    decreases l,
{
    let word = dim_word(horizontal);
    match l {
        Length::Px(px) => (
            Field(0, 0),
            exact_class(horizontal).name() + " "@ + word + "-px-"@ + nat_str(px as nat),
            seq![StyleV::Single(word + "-px-"@ + nat_str(px as nat), word, nat_str(px as nat) + "px"@)],
        ),
        Length::Content => (
            Field(0, 0).with(content_flag(horizontal)),
            content_class(horizontal).name(),
            Seq::empty(),
        ),
        Length::Fill(p) => if p == 1 {
            (Field(0, 0).with(fill_flag(horizontal)), fill_class(horizontal).name(), Seq::empty())
        } else {
            (
                Field(0, 0).with(fill_flag(horizontal)),
                portion_class(horizontal).name() + " "@ + word + "-fill-"@ + nat_str(p as nat),
                seq![
                    StyleV::Single(
                        Classes::Any.name() + "."@ + axis_layout_class(horizontal).name()
                            + " > ."@ + word + "-fill-"@ + nat_str(p as nat),
                        "flex-grow"@,
                        grow_value(p as nat),
                    ),
                ],
            )
        },
        Length::Min(size, inner) => {
            let (f, a, s) = length_rendering(*inner, horizontal);
            let cls = "min-"@ + word + "-"@ + nat_str(size as nat);
            (
                f.with(between_flag(horizontal)),
                cls + " "@ + a,
                seq![StyleV::Single(cls, "min-"@ + word, nat_str(size as nat) + min_suffix(horizontal))] + s,
            )
        },
        Length::Max(size, inner) => {
            let (f, a, s) = length_rendering(*inner, horizontal);
            let cls = "max-"@ + word + "-"@ + nat_str(size as nat);
            (
                f.with(between_flag(horizontal)),
                cls + " "@ + a,
                seq![StyleV::Single(cls, "max-"@ + word, nat_str(size as nat) + "px"@)] + s,
            )
        },
    }
}

proof fn lemma_times_ten(n: nat)
    requires
        n > 0,
    ensures
        nat_str(n * 10) == nat_str(n).push('0'),
{
    assert(n * 10 >= 10);
    assert((n * 10) / 10 == n);
    assert((n * 10) % 10 == 0);
}

fn grow_text(p: u64) -> (r: String)
    ensures
        r@ == grow_value(p as nat),
{
    if p == 0 {
        proof {
            reveal_strlit("0");
            assert(nat_str(0) == seq!['0']);
        }
        String::from_str("0")
    } else {
        let mut s = u64_str(p);
        s.append("00000");
        proof {
            reveal_strlit("00000");
            let n = p as nat;
            lemma_times_ten(n);
            lemma_times_ten(n * 10);
            lemma_times_ten(n * 100);
            lemma_times_ten(n * 1000);
            lemma_times_ten(n * 10000);
            assert(nat_str(n * 100000) =~= nat_str(n) + "00000"@);
        }
        s
    }
}

fn word_of(horizontal: bool) -> (r: &'static str)
    ensures
        r@ == dim_word(horizontal),
{
    if horizontal {
        "width"
    } else {
        "height"
    }
}

impl Clone for Length {
    fn clone(&self) -> (r: Self)
        ensures
            r == *self,
        decreases self,
    {
        match self {
            Length::Px(p) => Length::Px(*p),
            Length::Content => Length::Content,
            Length::Fill(i) => Length::Fill(*i),
            Length::Min(m, inner) => Length::Min(*m, Box::new((**inner).clone())),
            Length::Max(m, inner) => Length::Max(*m, Box::new((**inner).clone())),
        }
    }
}

impl Length {
    pub fn class_name(&self) -> (r: String)
        ensures
            r@ == length_class(*self),
        decreases self,
    {
        match self {
            Length::Px(px) => {
                let mut s = u64_str(*px);
                s.append("px");
                s
            },
            Length::Content => String::from_str("auto"),
            Length::Fill(i) => {
                let mut s = u64_str(*i);
                s.append("fr");
                s
            },
            Length::Min(m, inner) => {
                let mut s = String::from_str("min");
                let n = u64_str(*m);
                s.append(n.as_str());
                let rest = inner.class_name();
                s.append(rest.as_str());
                s
            },
            Length::Max(m, inner) => {
                let mut s = String::from_str("max");
                let n = u64_str(*m);
                s.append(n.as_str());
                let rest = inner.class_name();
                s.append(rest.as_str());
                s
            },
        }
    }

    pub fn is_content(&self) -> (r: bool)
        ensures
            r == length_is_content(*self),
        decreases self,
    {
        match self {
            Length::Content => true,
            Length::Max(_, l) => l.is_content(),
            Length::Min(_, l) => l.is_content(),
            Length::Fill(_) => false,
            Length::Px(_) => false,
        }
    }

    /// Flags, class names and style rules of this length as a width or, with
    /// `horizontal` false, as a height.
    pub fn render(&self, horizontal: bool) -> (r: (Field, String, Vec<Style>))
        ensures
            r.0 == length_rendering(*self, horizontal).0,
            r.1@ == length_rendering(*self, horizontal).1,
            r.2@.map_values(|s: Style| s@) == length_rendering(*self, horizontal).2,
        decreases self,
    {
        let word = word_of(horizontal);
        match self {
            Length::Px(px) => {
                let n = u64_str(*px);
                let mut cls = String::from_str(
                    if horizontal {
                        Classes::WidthExact.to_string()
                    } else {
                        Classes::HeightExact.to_string()
                    },
                );
                cls.append(" ");
                cls.append(word);
                cls.append("-px-");
                cls.append(n.as_str());
                let mut name = String::from_str(word);
                name.append("-px-");
                name.append(n.as_str());
                let mut val = n.clone();
                val.append("px");
                let v = vec![Style::Single(name, String::from_str(word), val)];
                proof {
                    assert(v@.map_values(|s: Style| s@) =~= length_rendering(*self, horizontal).2);
                }
                (Field::none(), cls, v)
            },
            Length::Content => {
                let mut flag = Field::none();
                flag.add(&if horizontal {
                    Flag::width_content()
                } else {
                    Flag::height_content()
                });
                let cls = String::from_str(
                    if horizontal {
                        Classes::WidthContent.to_string()
                    } else {
                        Classes::HeightContent.to_string()
                    },
                );
                let v: Vec<Style> = Vec::new();
                proof {
                    assert(v@.map_values(|s: Style| s@) =~= length_rendering(*self, horizontal).2);
                }
                (flag, cls, v)
            },
            Length::Fill(portion) => {
                let mut flag = Field::none();
                flag.add(&if horizontal {
                    Flag::width_fill()
                } else {
                    Flag::height_fill()
                });
                if *portion == 1 {
                    let cls = String::from_str(
                        if horizontal {
                            Classes::WidthFill.to_string()
                        } else {
                            Classes::HeightFill.to_string()
                        },
                    );
                    let v: Vec<Style> = Vec::new();
                    proof {
                        assert(v@.map_values(|s: Style| s@) =~= length_rendering(*self, horizontal).2);
                    }
                    (flag, cls, v)
                } else {
                    let n = u64_str(*portion);
                    let mut cls = String::from_str(
                        if horizontal {
                            Classes::WidthFillPortion.to_string()
                        } else {
                            Classes::HeightFillPortion.to_string()
                        },
                    );
                    cls.append(" ");
                    cls.append(word);
                    cls.append("-fill-");
                    cls.append(n.as_str());
                    let mut sel = String::from_str(Classes::Any.to_string());
                    sel.append(".");
                    sel.append(
                        if horizontal {
                            Classes::Row.to_string()
                        } else {
                            Classes::Column.to_string()
                        },
                    );
                    sel.append(" > .");
                    sel.append(word);
                    sel.append("-fill-");
                    sel.append(n.as_str());
                    let v = vec![Style::Single(sel, String::from_str("flex-grow"), grow_text(*portion))];
                    proof {
                        assert(v@.map_values(|s: Style| s@) =~= length_rendering(*self, horizontal).2);
                    }
                    (flag, cls, v)
                }
            },
            Length::Min(size, inner) => {
                let n = u64_str(*size);
                let mut cls = String::from_str("min-");
                cls.append(word);
                cls.append("-");
                cls.append(n.as_str());
                let mut prop = String::from_str("min-");
                prop.append(word);
                let mut val = n.clone();
                val.append(if horizontal { "px" } else { "px !important" });
                let (mut flag, attrs, new_style) = inner.render(horizontal);
                let mut classes = cls.clone();
                classes.append(" ");
                classes.append(attrs.as_str());
                let mut style = vec![Style::Single(cls, prop, val)];
                let mut rest = new_style;
                style.append(&mut rest);
                flag.add(&if horizontal {
                    Flag::width_between()
                } else {
                    Flag::height_between()
                });
                proof {
                    assert(style@.map_values(|s: Style| s@) =~= length_rendering(*self, horizontal).2);
                }
                (flag, classes, style)
            },
            Length::Max(size, inner) => {
                let n = u64_str(*size);
                let mut cls = String::from_str("max-");
                cls.append(word);
                cls.append("-");
                cls.append(n.as_str());
                let mut prop = String::from_str("max-");
                prop.append(word);
                let mut val = n.clone();
                val.append("px");
                let (mut flag, attrs, new_style) = inner.render(horizontal);
                let mut classes = cls.clone();
                classes.append(" ");
                classes.append(attrs.as_str());
                let mut style = vec![Style::Single(cls, prop, val)];
                let mut rest = new_style;
                style.append(&mut rest);
                flag.add(&if horizontal {
                    Flag::width_between()
                } else {
                    Flag::height_between()
                });
                proof {
                    assert(style@.map_values(|s: Style| s@) =~= length_rendering(*self, horizontal).2);
                }
                (flag, classes, style)
            },
        }
    }

    pub fn render_width(&self) -> (r: (Field, String, Vec<Style>))
        ensures
            r.0 == length_rendering(*self, true).0,
            r.1@ == length_rendering(*self, true).1,
            r.2@.map_values(|s: Style| s@) == length_rendering(*self, true).2,
    {
        self.render(true)
    }

    pub fn render_height(&self) -> (r: (Field, String, Vec<Style>))
        ensures
            r.0 == length_rendering(*self, false).0,
            r.1@ == length_rendering(*self, false).1,
            r.2@.map_values(|s: Style| s@) == length_rendering(*self, false).2,
    {
        self.render(false)
    }
}

} // verus!
