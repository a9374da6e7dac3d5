//! The snowball field: where the snowballs start, how the collider sweeps over
//! them, and how the simulated positions are packed for the search.

use crate::snowball_order::{is_descending_x, sort_descending_x};
use vstd::prelude::*;

verus! {

/// An axis-aligned box of whole pixels, edges included.
#[derive(Clone, Copy, Debug, PartialEq, Eq, Structural)]
pub struct BoundingBox {
    pub left: i32,
    pub top: i32,
    pub right: i32,
    pub bottom: i32,
}

impl BoundingBox {
    pub fn new(left: i32, top: i32, right: i32, bottom: i32) -> (bbox: Self)
        ensures
            bbox == (BoundingBox { left, top, right, bottom }),
    {
        Self { left, top, right, bottom }
    }

    /// The collider before the first tick.
    pub fn collider_start() -> (bbox: Self)
        ensures
            bbox == (BoundingBox { left: 140, top: 367, right: 159, bottom: 377 }),
    {
        BoundingBox::new(140, 367, 159, 377)
    }

    /// The collider during tick `tick`, counted from zero: it has moved down three
    /// pixels for this tick and for each one before.
    pub open spec fn collider_at(tick: int) -> BoundingBox {
        BoundingBox {
            left: 140,
            top: (370 + 3 * tick) as i32,
            right: 159,
            bottom: (380 + 3 * tick) as i32,
        }
    }

    /// Moves the box down `amount` pixels.
    pub fn move_down(&mut self, amount: i32)
        requires
            i32::MIN <= old(self).top + amount <= i32::MAX,
            i32::MIN <= old(self).bottom + amount <= i32::MAX,
        ensures
            final(self).left == old(self).left,
            final(self).right == old(self).right,
            final(self).top == old(self).top + amount,
            final(self).bottom == old(self).bottom + amount,
    {
        self.top += amount;
        self.bottom += amount;
    }

    /// The collider of every tick of a simulation, in order.
    pub fn collider_sweep() -> (sweep: Vec<BoundingBox>)
        ensures
            sweep@.len() == 40,
            forall|tick: int| 0 <= tick < 40 ==> sweep@[tick] == Self::collider_at(tick),
    {
        let mut sweep: Vec<BoundingBox> = Vec::new();
        let mut mainchara_bbox = BoundingBox::collider_start();
        for tick in 0..SIMULATION_TICKS
            invariant
                sweep@.len() == tick,
                mainchara_bbox == (BoundingBox {
                    left: 140,
                    top: (367 + 3 * tick) as i32,
                    right: 159,
                    bottom: (377 + 3 * tick) as i32,
                }),
                forall|t: int| 0 <= t < tick ==> sweep@[t] == Self::collider_at(t),
        {
            mainchara_bbox.move_down(3);
            sweep.push(mainchara_bbox);
        }
        sweep
    }
}

/// The number of ticks of one simulation.
pub const SIMULATION_TICKS: usize = 40;

/// The number of snowballs in the field.
pub const SNOWBALL_COUNT: usize = 120;

/// The left edge of the window of positions that are packed.
pub const SNOWBALLS_ORIGIN_X: i32 = 150;

/// The upper edge of the window of positions that are packed.
pub const SNOWBALLS_ORIGIN_Y: i32 = 360;

/// The width and the height of the window.
pub const SNOWBALLS_WINDOW: i32 = 250;

/// The number of snowballs that are packed for one candidate.
pub const SNOWBALL_CAPACITY: usize = 64;

/// The counter of pushes that a snowball gets when the collider hits it: the draw
/// read as a fraction of 2^32, scaled by four and rounded down, and two more.
pub fn push_counter(draw: u32) -> (counter: i32)
    ensures
        counter == (draw as int * 4) / 0x1_0000_0000 + 2,
        2 <= counter <= 5,
{
    let upper = draw >> 30;
    assert(upper == (draw as int * 4) / 0x1_0000_0000 && upper <= 3) by (bit_vector)
        requires
            upper == draw >> 30u32,
    ;
    upper as i32 + 2
}

/// The counter of a snowball at rest, as every snowball is until the collider
/// hits it: no push is left.
pub const REST_COUNTER: i32 = 0;

/// Whether a snowball with this counter is pushed in the tick that comes: it is
/// pulled towards the collider and jittered while its counter is above zero, and
/// the counter then goes down by one.
pub fn is_pushed(counter: i32) -> (pushed: bool)
    ensures
        pushed == (counter > 0),
{
    counter > 0
}

/// Where snowball `index` starts, in tenths of a pixel. The field is four areas
/// of thirty snowballs: in each, five rows of five, four pixels apart, the last
/// column two tenths short, and then a column of five to the left of them.
pub open spec fn start_position(index: int) -> (int, int) {
    let area = index / 30;
    let within = index % 30;
    let area_y: int = if area == 0 {
        4410
    } else if area == 1 {
        3810
    } else if area == 2 {
        4210
    } else {
        4010
    };
    if within < 25 {
        let column = within % 5;
        let row = within / 5;
        (if column == 4 {
            1580
        } else {
            1422 + 40 * column
        }, area_y + 40 * row)
    } else {
        (1380, area_y + 40 * (within - 25))
    }
}

/// Where the snowballs start, in tenths of a pixel.
pub fn start_positions() -> (positions: Vec<(i32, i32)>)
    ensures
        positions@.len() == 120,
        forall|i: int|
            0 <= i < 120 ==> (#[trigger] positions@[i]).0 == start_position(i).0 && positions@[i].1
                == start_position(i).1,
{
    let mut positions: Vec<(i32, i32)> = Vec::new();
    for index in 0..SNOWBALL_COUNT
        invariant
            positions@.len() == index,
            forall|i: int|
                0 <= i < index ==> (#[trigger] positions@[i]).0 == start_position(i).0
                    && positions@[i].1 == start_position(i).1,
    {
        let area = index / 30;
        let within = index % 30;
        let area_y: i32 = if area == 0 {
            4410
        } else if area == 1 {
            3810
        } else if area == 2 {
            4210
        } else {
            4010
        };
        let position: (i32, i32) = if within < 25 {
            let column = (within % 5) as i32;
            let row = (within / 5) as i32;
            (if column == 4 {
                1580
            } else {
                1422 + 40 * column
            }, area_y + 40 * row)
        } else {
            (1380, area_y + 40 * (within as i32 - 25))
        };
        positions.push(position);
    }
    positions
}

/// Whether a rounded position lies in the window that is packed.
pub open spec fn in_window(position: (i32, i32)) -> bool {
    &&& 150 <= position.0 < 400
    &&& 360 <= position.1 < 610
}

/// The position relative to the window's corner.
pub open spec fn shifted(position: (i32, i32)) -> (u8, u8) {
    ((position.0 - 150) as u8, (position.1 - 360) as u8)
}

/// The positions that lie in the window, in their order, relative to its corner.
pub open spec fn windowed(positions: Seq<(i32, i32)>) -> Seq<(u8, u8)>
    decreases positions.len(),
{
    if positions.len() == 0 {
        Seq::empty()
    } else if in_window(positions.last()) {
        windowed(positions.drop_last()).push(shifted(positions.last()))
    } else {
        windowed(positions.drop_last())
    }
}

/// The 128 bytes of one candidate: `x` and `y` of the first 64 of `snowballs`, then
/// zeros.
pub open spec fn packed(snowballs: Seq<(u8, u8)>) -> Seq<u8> {
    Seq::new(
        128,
        |k: int|
            if k / 2 < snowballs.len() {
                if k % 2 == 0 {
                    snowballs[k / 2].0
                } else {
                    snowballs[k / 2].1
                }
            } else {
                0u8
            },
    )
}

/// The positions of `positions` that lie in the window, relative to its corner.
pub fn window_positions(positions: &Vec<(i32, i32)>) -> (kept: Vec<(u8, u8)>)
    ensures
        kept@ == windowed(positions@),
        kept@.len() <= positions@.len(),
{
    let mut kept: Vec<(u8, u8)> = Vec::new();
    for i in 0..positions.len()
        invariant
            kept@ == windowed(positions@.subrange(0, i as int)),
            kept@.len() <= i,
    {
        let snowball_x = positions[i].0;
        let snowball_y = positions[i].1;
        assert(positions@.subrange(0, i + 1).drop_last() =~= positions@.subrange(0, i as int));
        assert(positions@.subrange(0, i + 1).last() == positions@[i as int]);
        let outside = snowball_x < SNOWBALLS_ORIGIN_X || snowball_y < SNOWBALLS_ORIGIN_Y
            || snowball_x >= SNOWBALLS_ORIGIN_X + 250 || snowball_y >= SNOWBALLS_ORIGIN_Y + 250;
        if !outside {
            kept.push(
                (
                    (snowball_x - SNOWBALLS_ORIGIN_X) as u8,
                    (snowball_y - SNOWBALLS_ORIGIN_Y) as u8,
                ),
            );
        }
    }
    assert(positions@.subrange(0, positions.len() as int) =~= positions@);
    kept
}

/// Appends the 128 bytes of `snowballs` to `output_position_data`.
pub fn pack_snowballs(snowballs: &Vec<(u8, u8)>, output_position_data: &mut Vec<u8>)
    ensures
        final(output_position_data)@ == old(output_position_data)@ + packed(snowballs@),
{
    let ghost before = output_position_data@;
    let mut num_snowballs_output: usize = 0;
    while num_snowballs_output < snowballs.len() && num_snowballs_output < SNOWBALL_CAPACITY
        invariant
            num_snowballs_output <= snowballs@.len(),
            num_snowballs_output <= 64,
            output_position_data@ == before + packed(snowballs@).subrange(
                0,
                2 * num_snowballs_output as int,
            ),
        decreases 64 - num_snowballs_output,
    {
        output_position_data.push(snowballs[num_snowballs_output].0);
        output_position_data.push(snowballs[num_snowballs_output].1);
        num_snowballs_output += 1;
        assert(output_position_data@ =~= before + packed(snowballs@).subrange(
            0,
            2 * num_snowballs_output as int,
        ));
    }
    let filled = num_snowballs_output;
    while num_snowballs_output < SNOWBALL_CAPACITY
        invariant
            filled <= num_snowballs_output <= 64,
            filled == snowballs@.len() || filled == 64,
            filled <= snowballs@.len(),
            output_position_data@ == before + packed(snowballs@).subrange(
                0,
                2 * num_snowballs_output as int,
            ),
        decreases 64 - num_snowballs_output,
    {
        output_position_data.push(0);
        output_position_data.push(0);
        num_snowballs_output += 1;
        assert(output_position_data@ =~= before + packed(snowballs@).subrange(
            0,
            2 * num_snowballs_output as int,
        ));
    }
    assert(packed(snowballs@).subrange(0, 128) =~= packed(snowballs@));
}

/// Whether `bytes` is a packing of the simulated `positions`: the positions in
/// the window, relative to its corner, in some order of falling `x`, cut to 64 and
/// filled up with zeros.
pub open spec fn is_packing_of(bytes: Seq<u8>, positions: Seq<(i32, i32)>) -> bool {
    exists|sorted: Seq<(u8, u8)>|
        {
            &&& sorted.to_multiset() == windowed(positions).to_multiset()
            &&& is_descending_x(sorted)
            &&& bytes == #[trigger] packed(sorted)
        }
}

/// Packs the rounded positions of one simulation for the search and appends the
/// 128 bytes to `output_position_data`.
pub fn pack_positions(positions: &Vec<(i32, i32)>, output_position_data: &mut Vec<u8>)
    ensures
        final(output_position_data)@.len() == old(output_position_data)@.len() + 128,
        final(output_position_data)@.subrange(0, old(output_position_data)@.len() as int) == old(
            output_position_data,
        )@,
        is_packing_of(
            final(output_position_data)@.subrange(
                old(output_position_data)@.len() as int,
                final(output_position_data)@.len() as int,
            ),
            positions@,
        ),
{
    let ghost before = output_position_data@;
    let mut simulated_snowballs = window_positions(positions);
    sort_descending_x(&mut simulated_snowballs);
    pack_snowballs(&simulated_snowballs, output_position_data);
    proof {
        let added = output_position_data@.subrange(
            before.len() as int,
            output_position_data@.len() as int,
        );
        assert(added =~= packed(simulated_snowballs@));
        assert(output_position_data@.subrange(0, before.len() as int) =~= before);
    }
}

} // verus!
