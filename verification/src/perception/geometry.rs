//! The dimensions of the field, from what vision reports of its geometry.

use crate::geom::Point;
use crate::world::vision::Field;
use vstd::prelude::*;

verus! {

/// The depth taken for the defense area where vision reports none: a metre
/// and a half.
pub const DEFAULT_DEFENSE_DEPTH: u64 = 1_500_000;

/// The width taken for the defense area where vision reports none: two
/// metres and a half.
pub const DEFAULT_DEFENSE_WIDTH: u64 = 2_500_000;

/// The radius taken for the centre circle where vision reports none: half
/// a metre.
pub const DEFAULT_CENTER_CIRCLE_RADIUS: u64 = 500_000;

/// One named line of the field's markings.
#[derive(Clone, Debug)]
pub struct FieldLine {
    pub name: String,
    pub p1: Point,
    pub p2: Point,
}

/// One named arc of the field's markings.
#[derive(Clone, Debug)]
pub struct FieldArc {
    pub name: String,
    /// In micrometres.
    pub radius: u64,
}

/// What the logic reads of the field's geometry as vision reports it.
/// Lengths are in micrometres.
#[derive(Clone, Debug)]
pub struct FieldGeometry {
    pub field_length: u64,
    pub field_width: u64,
    pub goal_width: u64,
    pub goal_depth: u64,
    pub boundary_width: u64,
    pub field_lines: Vec<FieldLine>,
    pub field_arcs: Vec<FieldArc>,
    pub penalty_area_depth: Option<u64>,
    pub penalty_area_width: Option<u64>,
    pub center_circle_radius: Option<u64>,
}

/// The length of a line: the distance between its ends, rounded down.
pub open spec fn line_length(line: FieldLine) -> int {
    line.p1.minus(line.p2).length_spec()
}

/// The length of the first of `lines` that is named `name`.
pub open spec fn line_length_from_name_spec(lines: Seq<FieldLine>, name: Seq<char>) -> Option<int>
    decreases lines.len(),
{
    if lines.len() == 0 {
        None
    } else if lines[0].name@ == name {
        Some(line_length(lines[0]))
    } else {
        line_length_from_name_spec(lines.drop_first(), name)
    }
}

/// The radius of the first of `arcs` that is named `name`.
pub open spec fn arc_radius_from_name_spec(arcs: Seq<FieldArc>, name: Seq<char>) -> Option<u64>
    decreases arcs.len(),
{
    if arcs.len() == 0 {
        None
    } else if arcs[0].name@ == name {
        Some(arcs[0].radius)
    } else {
        arc_radius_from_name_spec(arcs.drop_first(), name)
    }
}

/// `reported`, or else `marked`, or else `default`.
pub open spec fn first_known(reported: Option<u64>, marked: Option<int>, default: u64) -> int {
    match reported {
        Some(value) => value as int,
        None => match marked {
            Some(value) => value,
            None => default as int,
        },
    }
}

/// The field that `geometry` describes. The defense area and the centre
/// circle are taken as reported; where they are not, from the marking that
/// bears their name; and where there is none, from the defaults.
pub open spec fn field_from_geometry(geometry: FieldGeometry) -> Field {
    Field {
        x_length: geometry.field_length,
        y_length: geometry.field_width,
        defense_x_length: first_known(
            geometry.penalty_area_depth,
            line_length_from_name_spec(geometry.field_lines@, "LeftFieldLeftPenaltyStretch"@),
            DEFAULT_DEFENSE_DEPTH,
        ) as u64,
        defense_y_length: first_known(
            geometry.penalty_area_width,
            line_length_from_name_spec(geometry.field_lines@, "LeftPenaltyStretch"@),
            DEFAULT_DEFENSE_WIDTH,
        ) as u64,
        goal_x_length: geometry.goal_depth,
        goal_y_length: geometry.goal_width,
        boundary_size: geometry.boundary_width,
        center_circle_radius: first_known(
            geometry.center_circle_radius,
            match arc_radius_from_name_spec(geometry.field_arcs@, "CenterCircle"@) {
                Some(radius) => Some(radius as int),
                None => None,
            },
            DEFAULT_CENTER_CIRCLE_RADIUS,
        ) as u64,
    }
}

/// The length of the first of `lines` that is named `name`.
pub fn line_length_from_name(lines: &Vec<FieldLine>, name: &str) -> (length: Option<u64>)
    ensures
        match length {
            Some(l) => line_length_from_name_spec(lines@, name@) == Some(l as int),
            None => line_length_from_name_spec(lines@, name@) is None,
        },
{
    let wanted = name.to_owned();
    let mut i: usize = 0;
    assert(lines@.skip(0) =~= lines@);
    while i < lines.len()
        invariant
            i <= lines@.len(),
            wanted@ == name@,
            line_length_from_name_spec(lines@.skip(i as int), name@) == line_length_from_name_spec(
                lines@,
                name@,
            ),
        decreases lines@.len() - i,
    {
        let ghost rest = lines@.skip(i as int);
        assert(rest[0] == lines@[i as int]);
        assert(rest.drop_first() =~= lines@.skip(i + 1));
        if lines[i].name == wanted {
            return Some((lines[i].p1 - lines[i].p2).length());
        }
        i += 1;
    }
    None
}

/// The radius of the first of `arcs` that is named `name`.
pub fn arc_radius_from_name(arcs: &Vec<FieldArc>, name: &str) -> (radius: Option<u64>)
    ensures
        radius == arc_radius_from_name_spec(arcs@, name@),
{
    let wanted = name.to_owned();
    let mut i: usize = 0;
    assert(arcs@.skip(0) =~= arcs@);
    while i < arcs.len()
        invariant
            i <= arcs@.len(),
            wanted@ == name@,
            arc_radius_from_name_spec(arcs@.skip(i as int), name@) == arc_radius_from_name_spec(
                arcs@,
                name@,
            ),
        decreases arcs@.len() - i,
    {
        let ghost rest = arcs@.skip(i as int);
        assert(rest[0] == arcs@[i as int]);
        assert(rest.drop_first() =~= arcs@.skip(i + 1));
        if arcs[i].name == wanted {
            return Some(arcs[i].radius);
        }
        i += 1;
    }
    None
}

/// The field that `field_pb` describes.
pub fn field_from_proto(field_pb: &FieldGeometry) -> (field: Field)
    ensures
        field == field_from_geometry(*field_pb),
{
    let penalty_area_depth = if let Some(depth) = field_pb.penalty_area_depth {
        depth
    } else {
        match line_length_from_name(&field_pb.field_lines, "LeftFieldLeftPenaltyStretch") {
            Some(length) => length,
            None => DEFAULT_DEFENSE_DEPTH,
        }
    };
    let penalty_area_width = if let Some(width) = field_pb.penalty_area_width {
        width
    } else {
        match line_length_from_name(&field_pb.field_lines, "LeftPenaltyStretch") {
            Some(length) => length,
            None => DEFAULT_DEFENSE_WIDTH,
        }
    };
    let center_circle_radius = if let Some(radius) = field_pb.center_circle_radius {
        radius
    } else {
        match arc_radius_from_name(&field_pb.field_arcs, "CenterCircle") {
            Some(radius) => radius,
            None => DEFAULT_CENTER_CIRCLE_RADIUS,
        }
    };
    Field {
        x_length: field_pb.field_length,
        y_length: field_pb.field_width,
        defense_x_length: penalty_area_depth,
        defense_y_length: penalty_area_width,
        goal_x_length: field_pb.goal_depth,
        goal_y_length: field_pb.goal_width,
        boundary_size: field_pb.boundary_width,
        center_circle_radius,
    }
}

} // verus!
