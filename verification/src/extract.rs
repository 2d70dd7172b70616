//! Reading single attributes out of a reflected object.
//!
//! An object without attribute bag has none of the attributes.

use crate::capacity::Capacity;
use crate::cascade::first_defined;
use crate::output_type::Vector2;
use crate::output_type::Vector3;
use crate::text::{copy_text, decimal, join, joined, push_decimal, short_guid, short_guid_of};
use crate::ue_type;
use crate::ue_type::{MapIconName, ObjectPath, Properties, Text, UObject};
use vstd::prelude::*;
use vstd::string::*;

verus! {

/// The text, or the empty text where there is none.
pub open spec fn text_or_empty(text: Option<String>) -> Seq<char> {
    match text {
        Some(t) => t@,
        None => Seq::empty(),
    }
}

/// The localized fragments of a point name; a fragment without localized
/// text counts as empty.
pub open spec fn localized_fragments(texts: Seq<Text>) -> Seq<Seq<char>> {
    Seq::new(texts.len(), |i: int| text_or_empty(texts[i].localized_string))
}

/// The localized text, else the culture-invariant one.
pub open spec fn localized_or_invariant(
    localized: Option<String>,
    neutral: Option<String>,
) -> Option<Seq<char>> {
    match localized {
        Some(text) => Some(text@),
        None => neutral.deep_view(),
    }
}

/// A text counts only where it has a character.
pub open spec fn non_empty(text: Option<Seq<char>>) -> Option<Seq<char>> {
    match text {
        Some(t) => if t.len() > 0 {
            Some(t)
        } else {
            None
        },
        None => None,
    }
}

/// First strategy: the localized fragments of the point name, joined with
/// single spaces.
pub open spec fn point_name_text<F>(p: Properties<F>) -> Option<Seq<char>> {
    match p.point_name {
        Some(name) => Some(joined(localized_fragments(name.texts@), " "@)),
        None => None,
    }
}

/// Second strategy: the mission point name.
pub open spec fn mission_name_text<F>(p: Properties<F>) -> Option<Seq<char>> {
    match p.mission_point_name {
        Some(name) => localized_or_invariant(name.localized_string, name.culture_invariant_string),
        None => None,
    }
}

/// Third strategy: the delivery point name, followed by a space and its
/// number where it has one.
pub open spec fn delivery_name_text<F>(p: Properties<F>) -> Option<Seq<char>> {
    match p.delivery_point_name {
        Some(d) => match localized_or_invariant(
            d.name.localized_string,
            d.name.culture_invariant_string,
        ) {
            Some(name) => match d.number {
                Some(number) => Some(name + " "@ + decimal(number as int)),
                None => Some(name),
            },
            None => None,
        },
        None => None,
    }
}

/// The name of an object: the outcome of the first strategy that gives a
/// non-empty text. Strategies are never combined.
pub open spec fn name_of<F>(obj: UObject<F>) -> Option<Seq<char>> {
    match obj.properties {
        Some(p) => first_defined(
            seq![
                non_empty(point_name_text(p)),
                non_empty(mission_name_text(p)),
                non_empty(delivery_name_text(p)),
            ],
            None,
        ),
        None => None,
    }
}

fn keep_non_empty(text: Option<String>) -> (r: Option<String>)
    ensures
        r.deep_view() == non_empty(text.deep_view()),
{
    match text {
        Some(t) => if t.as_str().is_empty() {
            None
        } else {
            Some(t)
        },
        None => None,
    }
}

fn pick_text(localized: &Option<String>, neutral: &Option<String>) -> (r: Option<String>)
    ensures
        r.deep_view() == localized_or_invariant(*localized, *neutral),
{
    match localized {
        Some(text) => Some(copy_text(text.as_str())),
        None => match neutral {
            Some(text) => Some(copy_text(text.as_str())),
            None => None,
        },
    }
}

/// The localized fragments of a point name.
pub fn fragments_of(texts: &Vec<Text>) -> (r: Vec<String>)
    ensures
        r.deep_view() == localized_fragments(texts@),
{
    let mut out: Vec<String> = Vec::new();
    let mut i: usize = 0;
    while i < texts.len()
        invariant
            i <= texts.len(),
            out@.len() == i,
            forall|j: int|
                0 <= j < i ==> (#[trigger] out@[j])@ == text_or_empty(texts@[j].localized_string),
        decreases texts.len() - i,
    {
        let fragment = match &texts[i].localized_string {
            Some(t) => copy_text(t.as_str()),
            None => String::new(),
        };
        out.push(fragment);
        i += 1;
    }
    proof {
        assert(out.deep_view() =~= localized_fragments(texts@));
    }
    out
}

/// The name of an object.
pub fn extract_name<F>(obj: &UObject<F>) -> (r: Option<String>)
    ensures
        r.deep_view() == name_of(*obj),
{
    let p = match &obj.properties {
        Some(p) => p,
        None => {
            return None;
        },
    };
    let ghost candidates = seq![
        non_empty(point_name_text(*p)),
        non_empty(mission_name_text(*p)),
        non_empty(delivery_name_text(*p)),
    ];
    let first = keep_non_empty(
        match &p.point_name {
            Some(name) => {
                let fragments = fragments_of(&name.texts);
                Some(join(&fragments, " "))
            },
            None => None,
        },
    );
    if first.is_some() {
        return first;
    }
    let second = keep_non_empty(
        match &p.mission_point_name {
            Some(name) => pick_text(&name.localized_string, &name.culture_invariant_string),
            None => None,
        },
    );
    if second.is_some() {
        proof {
            crate::cascade::lemma_first_defined_skip(candidates, None, 1);
            assert(candidates.skip(1)[0] == candidates[1]);
        }
        return second;
    }
    let third = keep_non_empty(
        match &p.delivery_point_name {
            Some(d) => match pick_text(&d.name.localized_string, &d.name.culture_invariant_string) {
                Some(name) => match d.number {
                    Some(number) => {
                        let mut text = name;
                        text.append(" ");
                        push_decimal(&mut text, number);
                        Some(text)
                    },
                    None => Some(name),
                },
                None => None,
            },
            None => None,
        },
    );
    proof {
        crate::cascade::lemma_first_defined_skip(candidates, None, 2);
        let last = candidates.skip(2);
        assert(last[0] == candidates[2]);
        assert(last.drop_first().len() == 0);
        assert(first_defined(last.drop_first(), None::<Seq<char>>) == None::<Seq<char>>);
        assert(first_defined(last, None::<Seq<char>>) == candidates[2]);
    }
    third
}

/// The location of an object, where it has one.
pub open spec fn location_of<F>(obj: UObject<F>) -> Option<Vector3<F>> {
    match obj.properties {
        Some(p) => match p.relative_location {
            Some(v) => Some(Vector3 { x: v.x, y: v.y, z: v.z }),
            None => None,
        },
        None => None,
    }
}

/// The location of an object.
pub fn extract_relative_location<F: Copy>(obj: &UObject<F>) -> (r: Option<Vector3<F>>)
    ensures
        r == location_of(*obj),
{
    match &obj.properties {
        Some(p) => match p.relative_location {
            Some(v) => Some(Vector3 { x: v.x, y: v.y, z: v.z }),
            None => None,
        },
        None => None,
    }
}

/// The GUID of a delivery point as written, where it has one.
pub open spec fn delivery_point_guid_of<F>(obj: UObject<F>) -> Option<Seq<char>> {
    match obj.properties {
        Some(p) => p.delivery_point_guid.deep_view(),
        None => None,
    }
}

/// The GUID of a bus stop as written, where it has one.
pub open spec fn bus_stop_guid_of<F>(obj: UObject<F>) -> Option<Seq<char>> {
    match obj.properties {
        Some(p) => p.bus_stop_guid.deep_view(),
        None => None,
    }
}

/// The short form of an optional GUID.
pub open spec fn shortened(guid: Option<Seq<char>>) -> Option<Seq<char>> {
    match guid {
        Some(g) => Some(short_guid_of(g)),
        None => None,
    }
}

fn guid_pair(guid: &Option<String>) -> (r: (Option<String>, Option<String>))
    ensures
        r.0.deep_view() == guid.deep_view(),
        r.1.deep_view() == shortened(guid.deep_view()),
{
    match guid {
        Some(g) => (Some(copy_text(g.as_str())), Some(short_guid(g.as_str()))),
        None => (None, None),
    }
}

/// The GUID of a delivery point: as written, and in short form.
pub fn extract_delivery_point_guid<F>(obj: &UObject<F>) -> (r: (Option<String>, Option<String>))
    ensures
        r.0.deep_view() == delivery_point_guid_of(*obj),
        r.1.deep_view() == shortened(delivery_point_guid_of(*obj)),
{
    match &obj.properties {
        Some(p) => guid_pair(&p.delivery_point_guid),
        None => (None, None),
    }
}

/// The GUID of a bus stop: as written, and in short form.
pub fn extract_bus_stop_guid<F>(obj: &UObject<F>) -> (r: (Option<String>, Option<String>))
    ensures
        r.0.deep_view() == bus_stop_guid_of(*obj),
        r.1.deep_view() == shortened(bus_stop_guid_of(*obj)),
{
    match &obj.properties {
        Some(p) => guid_pair(&p.bus_stop_guid),
        None => (None, None),
    }
}

/// The default capacity that an object declares, where it declares one.
pub open spec fn max_storage_of<F>(obj: UObject<F>) -> Option<Capacity> {
    match obj.properties {
        Some(p) => p.max_storage,
        None => None,
    }
}

/// The default capacity that an object declares.
pub fn extract_max_storage<F>(obj: &UObject<F>) -> (r: Option<Capacity>)
    ensures
        r == max_storage_of(*obj),
{
    match &obj.properties {
        Some(p) => p.max_storage,
        None => None,
    }
}

/// Whether an object carries the tag of a bus terminal.
pub open spec fn is_terminal<F>(obj: UObject<F>) -> bool {
    match obj.properties {
        Some(p) => exists|i: int| 0 <= i < p.tags@.len() && (#[trigger] p.tags@[i])@ == "BusTerminal"@,
        None => false,
    }
}

/// Whether an object carries the tag of a bus terminal.
pub fn check_is_terminal<F>(obj: &UObject<F>) -> (r: bool)
    ensures
        r == is_terminal(*obj),
{
    match &obj.properties {
        Some(p) => {
            let mut i: usize = 0;
            while i < p.tags.len()
                invariant
                    i <= p.tags.len(),
                    obj.properties == Some(*p),
                    forall|j: int| 0 <= j < i ==> (#[trigger] p.tags@[j])@ != "BusTerminal"@,
                decreases p.tags.len() - i,
            {
                if *p.tags[i].as_str() == *"BusTerminal" {
                    proof {
                        assert(p.tags@[i as int]@ == "BusTerminal"@);
                    }
                    return true;
                }
                i += 1;
            }
            false
        },
        None => false,
    }
}

/// The further destinations of a bus stop; none where it declares none.
pub open spec fn additional_destinations_of<F>(obj: UObject<F>) -> Seq<ObjectPath> {
    match obj.properties {
        Some(p) => match p.additional_destinations {
            Some(list) => list@,
            None => Seq::empty(),
        },
        None => Seq::empty(),
    }
}

/// The further destinations of a bus stop.
pub fn extract_additional_destinations<F>(obj: &UObject<F>) -> (r: &[ObjectPath])
    ensures
        r@ == additional_destinations_of(*obj),
{
    match &obj.properties {
        Some(p) => match &p.additional_destinations {
            Some(list) => list.as_slice(),
            None => &[],
        },
        None => &[],
    }
}

/// The key under which a house is registered; empty where it has none.
pub open spec fn housereg_key_of<F>(obj: UObject<F>) -> Seq<char> {
    match obj.properties {
        Some(p) => text_or_empty(p.houseg_key),
        None => Seq::empty(),
    }
}

/// The key under which a house is registered.
pub fn extract_housereg_key<F>(obj: &UObject<F>) -> (r: String)
    ensures
        r@ == housereg_key_of(*obj),
{
    match &obj.properties {
        Some(p) => match &p.houseg_key {
            Some(key) => copy_text(key.as_str()),
            None => String::new(),
        },
        None => String::new(),
    }
}

/// The localized names of the fragments of an area name.
pub open spec fn area_fragments(texts: Seq<MapIconName>) -> Seq<Seq<char>> {
    Seq::new(texts.len(), |i: int| texts[i].localized_string@)
}

/// The name of an area: its localized name where that is not empty, else
/// the fragments of its name joined with single spaces, else empty.
pub open spec fn area_name_of<F>(obj: UObject<F>) -> Seq<char> {
    match obj.properties {
        Some(p) => {
            let direct = match p.area_name {
                Some(name) => name.localized_string@,
                None => Seq::empty(),
            };
            if direct.len() > 0 {
                direct
            } else {
                match p.area_name_texts {
                    Some(texts) => joined(area_fragments(texts.texts@), " "@),
                    None => Seq::empty(),
                }
            }
        },
        None => Seq::empty(),
    }
}

/// The name of an area.
pub fn extract_area_name<F>(obj: &UObject<F>) -> (r: String)
    ensures
        r@ == area_name_of(*obj),
{
    let p = match &obj.properties {
        Some(p) => p,
        None => {
            return String::new();
        },
    };
    if let Some(name) = &p.area_name {
        if !name.localized_string.as_str().is_empty() {
            return copy_text(name.localized_string.as_str());
        }
    }
    match &p.area_name_texts {
        Some(texts) => {
            let mut fragments: Vec<String> = Vec::new();
            let mut i: usize = 0;
            while i < texts.texts.len()
                invariant
                    i <= texts.texts.len(),
                    fragments@.len() == i,
                    forall|j: int|
                        0 <= j < i ==> (#[trigger] fragments@[j])@
                            == texts.texts@[j].localized_string@,
                decreases texts.texts.len() - i,
            {
                fragments.push(copy_text(texts.texts[i].localized_string.as_str()));
                i += 1;
            }
            proof {
                assert(fragments.deep_view() =~= area_fragments(texts.texts@));
            }
            join(&fragments, " ")
        },
        None => String::new(),
    }
}

/// The first flag of an area; empty where it has none.
pub open spec fn area_flag_of<F>(obj: UObject<F>) -> Seq<char> {
    match obj.properties {
        Some(p) => if p.area_volume_flags@.len() > 0 {
            p.area_volume_flags@[0]@
        } else {
            Seq::empty()
        },
        None => Seq::empty(),
    }
}

/// The first flag of an area.
pub fn extract_area_flag<F>(obj: &UObject<F>) -> (r: String)
    ensures
        r@ == area_flag_of(*obj),
{
    match &obj.properties {
        Some(p) => if p.area_volume_flags.len() > 0 {
            copy_text(p.area_volume_flags[0].as_str())
        } else {
            String::new()
        },
        None => String::new(),
    }
}

/// The outline of an area seen from above: its points without their height.
pub open spec fn top_view_of<F>(obj: UObject<F>) -> Seq<Vector2<F>> {
    match obj.properties {
        Some(p) => Seq::new(
            p.top_view_lines@.len(),
            |i: int| Vector2 { x: p.top_view_lines@[i].x, y: p.top_view_lines@[i].y },
        ),
        None => Seq::empty(),
    }
}

/// The outline of an area seen from above.
pub fn extract_top_view_lines<F: Copy>(obj: &UObject<F>) -> (r: Vec<Vector2<F>>)
    ensures
        r@ == top_view_of(*obj),
{
    let mut out: Vec<Vector2<F>> = Vec::new();
    match &obj.properties {
        Some(p) => {
            let mut i: usize = 0;
            while i < p.top_view_lines.len()
                invariant
                    i <= p.top_view_lines.len(),
                    obj.properties == Some(*p),
                    out@ == top_view_of(*obj).take(i as int),
                decreases p.top_view_lines.len() - i,
            {
                let l = p.top_view_lines[i];
                out.push(Vector2 { x: l.x, y: l.y });
                proof {
                    assert(out@ =~= top_view_of(*obj).take(i + 1));
                }
                i += 1;
            }
            proof {
                assert(top_view_of(*obj).take(p.top_view_lines@.len() as int) == top_view_of(
                    *obj,
                ));
            }
        },
        None => {},
    }
    out
}

/// The size of the ground of a house, or `fallback` where the object
/// declares none.
pub open spec fn area_size_of<F>(obj: UObject<F>, fallback: ue_type::Vector3<F>) -> ue_type::Vector3<
    F,
> {
    match obj.properties {
        Some(p) => match p.area_size {
            Some(size) => size,
            None => fallback,
        },
        None => fallback,
    }
}

/// The size of the ground of a house, or `fallback`.
pub fn extract_area_size<F: Copy>(obj: &UObject<F>, fallback: ue_type::Vector3<F>) -> (r:
    ue_type::Vector3<F>)
    ensures
        r == area_size_of(*obj, fallback),
{
    match &obj.properties {
        Some(p) => match p.area_size {
            Some(size) => size,
            None => fallback,
        },
        None => fallback,
    }
}

} // verus!
