use vstd::prelude::*;

use crate::num::{channel_of, fixed_str, nat_str, Fixed};

verus! {

/// A point or a vector in three dimensions.
#[derive(Debug, PartialEq, Eq, Structural, Clone, Copy)]
pub struct Coordinate {
    pub x: Fixed,
    pub y: Fixed,
    pub z: Fixed,
}

/// An angle in radians.
#[derive(Debug, PartialEq, Eq, Structural, Clone, Copy)]
pub struct Angle(pub Fixed);

/// One transform component, as an attribute gives it.
#[derive(Debug, PartialEq, Eq, Structural, Clone, Copy)]
pub enum TransformComponent {
    MoveX(Fixed),
    MoveY(Fixed),
    MoveZ(Fixed),
    Move(Coordinate),
    Rotate(Coordinate, Fixed),
    Scale(Coordinate),
}

/// The combined transform of an element: translation, scale, rotation axis
/// and angle.
#[derive(Debug, PartialEq, Eq, Structural, Clone, Copy)]
pub enum Transform {
    Untransformed,
    Moved(Coordinate),
    FullTransform(Coordinate, Coordinate, Coordinate, Angle),
}

pub open spec fn coord(x: int, y: int, z: int) -> Coordinate {
    Coordinate { x: Fixed { units: x as i64 }, y: Fixed { units: y as i64 }, z: Fixed { units: z as i64 } }
}

pub open spec fn zero_coord() -> Coordinate {
    coord(0, 0, 0)
}

pub open spec fn unit_coord() -> Coordinate {
    coord(10000, 10000, 10000)
}

pub open spec fn z_axis() -> Coordinate {
    coord(0, 0, 10000)
}

pub open spec fn zero_angle() -> Angle {
    Angle(Fixed { units: 0 })
}

/// The translation with one component applied, where the component moves.
pub open spec fn moved_by(m: Coordinate, c: TransformComponent) -> Coordinate {
    match c {
        TransformComponent::MoveX(x) => Coordinate { x, ..m },
        TransformComponent::MoveY(y) => Coordinate { y, ..m },
        TransformComponent::MoveZ(z) => Coordinate { z, ..m },
        TransformComponent::Move(to) => to,
        _ => m,
    }
}

/// The translation a transform holds.
pub open spec fn translation(t: Transform) -> Coordinate {
    match t {
        Transform::Untransformed => zero_coord(),
        Transform::Moved(m) => m,
        Transform::FullTransform(m, _, _, _) => m,
    }
}

/// The composition of a transform with one more component: a move changes
/// only the translation; a rotation or a scale makes the transform full,
/// keeping the translation and whatever part the component does not set.
pub open spec fn compose_spec(t: Transform, c: TransformComponent) -> Transform {
    match c {
        TransformComponent::Rotate(axis, angle) => match t {
            Transform::FullTransform(m, s, _, _) => Transform::FullTransform(m, s, axis, Angle(angle)),
            _ => Transform::FullTransform(translation(t), unit_coord(), axis, Angle(angle)),
        },
        TransformComponent::Scale(s) => match t {
            Transform::FullTransform(m, _, o, a) => Transform::FullTransform(m, s, o, a),
            _ => Transform::FullTransform(translation(t), s, z_axis(), zero_angle()),
        },
        _ => match t {
            Transform::FullTransform(m, s, o, a) => Transform::FullTransform(moved_by(m, c), s, o, a),
            _ => Transform::Moved(moved_by(translation(t), c)),
        },
    }
}

/// Class name of a transform: `mv-x-y-z` for a translation, `trfm-...` with
/// the ten components as rounded numbers for a full transform.
pub open spec fn transform_class(t: Transform) -> Option<Seq<char>> {
    match t {
        Transform::Untransformed => None,
        Transform::Moved(m) => Some(
            "mv-"@ + fixed_str(m.x.units as int) + "-"@ + fixed_str(m.y.units as int) + "-"@
                + fixed_str(m.z.units as int),
        ),
        Transform::FullTransform(m, s, o, a) => Some(
            "trfm-"@ + nat_str(channel_of(m.x.units as int)) + "-"@ + nat_str(
                channel_of(m.y.units as int),
            ) + "-"@ + nat_str(channel_of(m.z.units as int)) + "-"@ + nat_str(
                channel_of(s.x.units as int),
            ) + "-"@ + nat_str(channel_of(s.y.units as int)) + "-"@ + nat_str(
                channel_of(s.z.units as int),
            ) + "-"@ + nat_str(channel_of(o.x.units as int)) + "-"@ + nat_str(
                channel_of(o.y.units as int),
            ) + "-"@ + nat_str(channel_of(o.z.units as int)) + "-"@ + nat_str(
                channel_of(a.0.units as int),
            ),
        ),
    }
}

pub open spec fn translate_value(m: Coordinate) -> Seq<char> {
    "translate3d("@ + fixed_str(m.x.units as int) + "px, "@ + fixed_str(m.y.units as int)
        + "px, "@ + fixed_str(m.z.units as int) + "px)"@
}

/// CSS value of a transform.
pub open spec fn transform_value(t: Transform) -> Option<Seq<char>> {
    match t {
        Transform::Untransformed => None,
        Transform::Moved(m) => Some(translate_value(m)),
        Transform::FullTransform(m, s, o, a) => Some(
            translate_value(m) + " scale3d("@ + fixed_str(s.x.units as int) + ","@ + fixed_str(
                s.y.units as int,
            ) + ","@ + fixed_str(s.z.units as int) + ") rotate3d("@ + fixed_str(o.x.units as int)
                + ","@ + fixed_str(o.y.units as int) + ","@ + fixed_str(o.z.units as int) + ","@
                + fixed_str(a.0.units as int) + "rad)"@,
        ),
    }
}

impl Coordinate {
    pub fn one() -> (r: Self)
        ensures
            r == unit_coord(),
    {
        Coordinate { x: Fixed::from_int(1), y: Fixed::from_int(1), z: Fixed::from_int(1) }
    }

    fn origin() -> (r: Self)
        ensures
            r == zero_coord(),
    {
        Coordinate { x: Fixed::from_int(0), y: Fixed::from_int(0), z: Fixed::from_int(0) }
    }
}

fn z_axis_coord() -> (r: Coordinate)
    ensures
        r == z_axis(),
{
    Coordinate { x: Fixed::from_int(0), y: Fixed::from_int(0), z: Fixed::from_int(1) }
}

fn push_fixed(s: &mut String, v: Fixed)
    ensures
        final(s)@ == old(s)@ + fixed_str(v.units as int),
{
    let t = v.to_text();
    s.append(t.as_str());
}

fn push_channel(s: &mut String, v: Fixed)
    ensures
        final(s)@ == old(s)@ + nat_str(channel_of(v.units as int)),
{
    let t = crate::num::u64_str(v.float_class() as u64);
    s.append(t.as_str());
}

fn translate_text(m: &Coordinate) -> (r: String)
    ensures
        r@ == translate_value(*m),
{
    let mut s = String::from_str("translate3d(");
    push_fixed(&mut s, m.x);
    s.append("px, ");
    push_fixed(&mut s, m.y);
    s.append("px, ");
    push_fixed(&mut s, m.z);
    s.append("px)");
    s
}

impl Transform {
    pub fn class(&self) -> (r: Option<String>)
        ensures
            r is None <==> transform_class(*self) is None,
            r is Some ==> r->0@ == transform_class(*self)->0,
    {
        match self {
            Transform::Untransformed => None,
            Transform::Moved(m) => {
                let mut s = String::from_str("mv-");
                push_fixed(&mut s, m.x);
                s.append("-");
                push_fixed(&mut s, m.y);
                s.append("-");
                push_fixed(&mut s, m.z);
                Some(s)
            },
            Transform::FullTransform(m, sc, o, a) => {
                let mut s = String::from_str("trfm-");
                push_channel(&mut s, m.x);
                s.append("-");
                push_channel(&mut s, m.y);
                s.append("-");
                push_channel(&mut s, m.z);
                s.append("-");
                push_channel(&mut s, sc.x);
                s.append("-");
                push_channel(&mut s, sc.y);
                s.append("-");
                push_channel(&mut s, sc.z);
                s.append("-");
                push_channel(&mut s, o.x);
                s.append("-");
                push_channel(&mut s, o.y);
                s.append("-");
                push_channel(&mut s, o.z);
                s.append("-");
                push_channel(&mut s, a.0);
                Some(s)
            },
        }
    }

    pub fn value(&self) -> (r: Option<String>)
        ensures
            r is None <==> transform_value(*self) is None,
            r is Some ==> r->0@ == transform_value(*self)->0,
    {
        match self {
            Transform::Untransformed => None,
            Transform::Moved(m) => Some(translate_text(m)),
            Transform::FullTransform(m, sc, o, a) => {
                let mut s = translate_text(m);
                s.append(" scale3d(");
                push_fixed(&mut s, sc.x);
                s.append(",");
                push_fixed(&mut s, sc.y);
                s.append(",");
                push_fixed(&mut s, sc.z);
                s.append(") rotate3d(");
                push_fixed(&mut s, o.x);
                s.append(",");
                push_fixed(&mut s, o.y);
                s.append(",");
                push_fixed(&mut s, o.z);
                s.append(",");
                push_fixed(&mut s, a.0);
                s.append("rad)");
                Some(s)
            },
        }
    }

    pub fn compose(&self, component: &TransformComponent) -> (r: Self)
        ensures
            r == compose_spec(*self, *component),
    {
        let moved = match self {
            Transform::Untransformed => Coordinate::origin(),
            Transform::Moved(m) => *m,
            Transform::FullTransform(m, _, _, _) => *m,
        };
        match component {
            TransformComponent::Rotate(axis, angle) => match self {
                Transform::FullTransform(m, s, _, _) => Transform::FullTransform(
                    *m,
                    *s,
                    *axis,
                    Angle(*angle),
                ),
                _ => Transform::FullTransform(moved, Coordinate::one(), *axis, Angle(*angle)),
            },
            TransformComponent::Scale(sc) => match self {
                Transform::FullTransform(m, _, o, a) => Transform::FullTransform(*m, *sc, *o, *a),
                _ => Transform::FullTransform(
                    moved,
                    *sc,
                    z_axis_coord(),
                    Angle(Fixed::from_int(0)),
                ),
            },
            _ => {
                let next = match component {
                    TransformComponent::MoveX(x) => Coordinate { x: *x, ..moved },
                    TransformComponent::MoveY(y) => Coordinate { y: *y, ..moved },
                    TransformComponent::MoveZ(z) => Coordinate { z: *z, ..moved },
                    TransformComponent::Move(to) => *to,
                    _ => moved,
                };
                match self {
                    Transform::FullTransform(_, s, o, a) => Transform::FullTransform(
                        next,
                        *s,
                        *o,
                        *a,
                    ),
                    _ => Transform::Moved(next),
                }
            },
        }
    }
}

pub fn untransformed() -> (r: Transform)
    ensures
        r == Transform::Untransformed,
{
    Transform::Untransformed
}

} // verus!
