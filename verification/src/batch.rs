//! Operations that run over a range of numbers.

use crate::chimp::ChimpConnection;
use crate::keys::{Key, PresetType, RecordMode};
use crate::script::{
    clear_events, delete_events, enter_events, number_events, press_events, record_events,
    select_group_events, select_preset_events, Event,
};
use core::ops::Range;
use vstd::prelude::*;

verus! {

/// How many numbers lie from `first` through `last`.
pub open spec fn span(first: u16, last: u16) -> nat {
    if first <= last {
        (last - first + 1) as nat
    } else {
        0
    }
}

/// One colour preset of a group is recorded into a cuelist: the group is
/// selected, the preset recalled, the cuelist replaced by what the
/// programmer then holds, the console's question answered with Enter, and
/// the programmer cleared.
pub open spec fn color_cuelist_events(group: u16, preset: u16, cuelist: u16) -> Seq<Event> {
    select_group_events(group) + select_preset_events(PresetType::Color, preset) + record_events(
        Key::CueList,
        cuelist,
        RecordMode::Replace,
    ) + enter_events() + clear_events()
}

/// The first `count` presets from `first_preset` on are recorded, one after
/// the other, into the cuelists from `first_cuelist` on.
pub open spec fn color_cuelists_events(
    group: u16,
    first_preset: u16,
    first_cuelist: u16,
    count: nat,
) -> Seq<Event>
    decreases count,
{
    if count == 0 {
        Seq::empty()
    } else {
        color_cuelists_events(group, first_preset, first_cuelist, (count - 1) as nat)
            + color_cuelist_events(
            group,
            (first_preset + count - 1) as u16,
            (first_cuelist + count - 1) as u16,
        )
    }
}

/// The instances `first_instance` through `last_instance` of one fixture are
/// selected and recorded as a group, which replaces what the group held.
pub open spec fn pixel_group_events(
    fixture: u16,
    first_instance: u16,
    last_instance: u16,
    group: u16,
) -> Seq<Event> {
    number_events(fixture) + press_events(Key::Dot) + number_events(first_instance) + press_events(
        Key::Thru,
    ) + number_events(fixture) + press_events(Key::Dot) + number_events(last_instance)
        + enter_events() + record_events(Key::Group, group, RecordMode::Replace)
}

/// The first `count` fixtures from `first_fixture` on are recorded, one
/// after the other, as the groups from `first_group` on.
pub open spec fn pixel_groups_events(
    first_fixture: u16,
    first_instance: u16,
    last_instance: u16,
    first_group: u16,
    count: nat,
) -> Seq<Event>
    decreases count,
{
    if count == 0 {
        Seq::empty()
    } else {
        pixel_groups_events(
            first_fixture,
            first_instance,
            last_instance,
            first_group,
            (count - 1) as nat,
        ) + pixel_group_events(
            (first_fixture + count - 1) as u16,
            first_instance,
            last_instance,
            (first_group + count - 1) as u16,
        )
    }
}

/// Records one colour preset of the group into one cuelist.
fn record_color_cuelist<C: ChimpConnection>(conn: &mut C, group: u16, preset: u16, cuelist: u16)
    ensures
        final(conn).history() == old(conn).history() + color_cuelist_events(
            group,
            preset,
            cuelist,
        ),
{
    conn.select_group(group);
    conn.select_preset(PresetType::Color, preset);
    conn.record(Key::CueList, cuelist, RecordMode::Replace);
    conn.enter();
    conn.clear();
}

/// Records each of the colour presets `presets.start` through `presets.end`
/// of the group into a cuelist of its own, starting with the cuelist
/// `cuelist_start`. Both ends of `presets` are recorded.
pub fn record_color_cuelists<C: ChimpConnection>(
    conn: &mut C,
    group: u16,
    presets: Range<u16>,
    cuelist_start: u16,
)
    requires
        presets.start <= presets.end ==> cuelist_start + (presets.end - presets.start) <= u16::MAX,
    ensures
        final(conn).history() == old(conn).history() + color_cuelists_events(
            group,
            presets.start,
            cuelist_start,
            span(presets.start, presets.end),
        ),
{
    if presets.start > presets.end {
        return ;
    }
    let last: u16 = presets.end - presets.start;
    let mut done: u16 = 0;
    loop
        invariant_except_break
            done <= last,
            last == presets.end - presets.start,
            cuelist_start + last <= u16::MAX,
            conn.history() == old(conn).history() + color_cuelists_events(
                group,
                presets.start,
                cuelist_start,
                done as nat,
            ),
        ensures
            conn.history() == old(conn).history() + color_cuelists_events(
                group,
                presets.start,
                cuelist_start,
                (last + 1) as nat,
            ),
        decreases last - done,
    {
        record_color_cuelist(conn, group, presets.start + done, cuelist_start + done);
        if done == last {
            break ;
        }
        done += 1;
    }
}

/// Makes one group out of the instances of one fixture.
fn record_pixel_group<C: ChimpConnection>(
    conn: &mut C,
    fixture: u16,
    instances: &Range<u16>,
    group: u16,
)
    ensures
        final(conn).history() == old(conn).history() + pixel_group_events(
            fixture,
            instances.start,
            instances.end,
            group,
        ),
{
    conn.send_number(fixture);
    conn.press_key(Key::Dot);
    conn.send_number(instances.start);
    conn.press_key(Key::Thru);
    conn.send_number(fixture);
    conn.press_key(Key::Dot);
    conn.send_number(instances.end);
    conn.enter();
    conn.record(Key::Group, group, RecordMode::Replace);
}

/// Makes one group of each of the fixtures `fixtures.start` through
/// `fixtures.end`, out of its instances `instances.start` through
/// `instances.end`. The groups are numbered from `group_id` on; what these
/// groups held before is deleted first. Both ends of both ranges take part.
pub fn record_pixel_groups<C: ChimpConnection>(
    conn: &mut C,
    group_id: u16,
    fixtures: Range<u16>,
    instances: Range<u16>,
)
    requires
        fixtures.start <= fixtures.end,
        group_id + (fixtures.end - fixtures.start) <= u16::MAX,
    ensures
        final(conn).history() == old(conn).history() + delete_events(
            Key::Group,
            group_id,
            (group_id + (fixtures.end - fixtures.start)) as u16,
        ) + pixel_groups_events(
            fixtures.start,
            instances.start,
            instances.end,
            group_id,
            span(fixtures.start, fixtures.end),
        ),
{
    let last: u16 = fixtures.end - fixtures.start;
    conn.delete(Key::Group, group_id..(group_id + last));
    let ghost deleted = conn.history();
    let mut done: u16 = 0;
    loop
        invariant_except_break
            done <= last,
            last == fixtures.end - fixtures.start,
            group_id + last <= u16::MAX,
            conn.history() == deleted + pixel_groups_events(
                fixtures.start,
                instances.start,
                instances.end,
                group_id,
                done as nat,
            ),
        ensures
            conn.history() == deleted + pixel_groups_events(
                fixtures.start,
                instances.start,
                instances.end,
                group_id,
                (last + 1) as nat,
            ),
        decreases last - done,
    {
        record_pixel_group(conn, fixtures.start + done, &instances, group_id + done);
        if done == last {
            break ;
        }
        done += 1;
    }
}

} // verus!
