//! Heads-up display: the data the HUD shows and the text it renders.
//!
//! A pure consumer of simulation state: it formats the momentum-lock flag
//! and one line per tagged meme container, and feeds no information back.
//! Laying the text out on screen is the host engine's work.

use vstd::prelude::*;
use vstd::string::StringExecFns;
use crate::math::{abs_val, clamp_spec};
use crate::meme::{ContainerType, MemeContainer};
use crate::player::PlayerMovement;

verus! {

/// Resource containing all data that the HUD wants to display.
pub struct HUDData {
    pub player_locked_momentum: bool,
    pub meme_data: Vec<String>,
}

impl Default for HUDData {
    /// An empty HUD: lock shown disengaged, no targets listed.
    fn default() -> (r: HUDData)
        ensures
            r.player_locked_momentum == false,
            r.meme_data@.len() == 0,
    {
        HUDData { player_locked_momentum: false, meme_data: Vec::new() }
    }
}

/// The name the HUD prints for a container type.
pub open spec fn container_type_label(t: ContainerType) -> Seq<char> {
    match t {
        ContainerType::Biological => "Biological"@,
        ContainerType::Electronic => "Electronic"@,
    }
}

/// The word the HUD prints for the infohazard flag.
pub open spec fn infohazard_label(flag: bool) -> Seq<char> {
    if flag {
        "true"@
    } else {
        "false"@
    }
}

/// One target-list line: the container's type and its infohazard flag,
/// separated by a space.
pub open spec fn meme_line_spec(m: MemeContainer) -> Seq<char> {
    container_type_label(m.container_type) + " "@ + infohazard_label(m.contains_infohazard)
}

/// Renders one meme container as its target-list line.
pub fn meme_line(m: &MemeContainer) -> (r: String)
    ensures
        r@ == meme_line_spec(*m),
{
    let mut line = String::new();
    let type_label: &str = match m.container_type {
        ContainerType::Biological => "Biological",
        ContainerType::Electronic => "Electronic",
    };
    line.append(type_label);
    line.append(" ");
    let flag_label: &str = if m.contains_infohazard {
        "true"
    } else {
        "false"
    };
    line.append(flag_label);
    proof {
        assert(line@ =~= meme_line_spec(*m));
    }
    line
}

/// Rebuilds the HUD's target list from the tagged containers, one line
/// each, in their order; the lock indicator is left alone.
pub fn update_hud_data_from_memetics(hud: &mut HUDData, memetics: &Vec<MemeContainer>)
    ensures
        final(hud).meme_data@.len() == memetics@.len(),
        forall|i: int|
            0 <= i < memetics@.len() ==> final(hud).meme_data@[i]@ == meme_line_spec(
                memetics@[i],
            ),
        final(hud).player_locked_momentum == old(hud).player_locked_momentum,
{
    hud.meme_data.clear();
    let mut i: usize = 0;
    while i < memetics.len()
        invariant
            i <= memetics@.len(),
            hud.meme_data@.len() == i,
            forall|j: int|
                0 <= j < i ==> hud.meme_data@[j]@ == meme_line_spec(memetics@[j]),
            hud.player_locked_momentum == old(hud).player_locked_momentum,
        decreases memetics@.len() - i,
    {
        let line = meme_line(&memetics[i]);
        hud.meme_data.push(line);
        i = i + 1;
    }
}

/// Copies the first player's momentum-lock flag into the HUD data; with no
/// player present the HUD silently keeps what it showed.
pub fn update_hud_data_from_player_data(hud: &mut HUDData, players: &Vec<PlayerMovement>)
    ensures
        players@.len() > 0 ==> final(hud).player_locked_momentum == players@[0].locked_velocity,
        players@.len() == 0 ==> final(hud).player_locked_momentum == old(
            hud,
        ).player_locked_momentum,
        final(hud).meme_data == old(hud).meme_data,
{
    if players.len() > 0 {
        hud.player_locked_momentum = players[0].locked_velocity;
    }
}

/// Colour of the momentum-lock indicator.
#[derive(Clone, Copy, PartialEq, Eq, Structural, Debug)]
pub enum IndicatorColor {
    Green,
    Pink,
}

/// The text of the momentum-lock indicator's value section.
pub fn momentum_lock_text(locked: bool) -> (r: &'static str)
    ensures
        locked ==> r@ == "ENABLED"@,
        !locked ==> r@ == "DISABLED"@,
{
    if locked {
        "ENABLED"
    } else {
        "DISABLED"
    }
}

/// The colour of the momentum-lock indicator: green when engaged, pink
/// when not.
pub fn momentum_lock_color(locked: bool) -> (r: IndicatorColor)
    ensures
        (r == IndicatorColor::Green) == locked,
        (r == IndicatorColor::Pink) == !locked,
{
    if locked {
        IndicatorColor::Green
    } else {
        IndicatorColor::Pink
    }
}

/// The target list as one block of text: every line followed by a newline.
pub open spec fn joined_lines(lines: Seq<Seq<char>>) -> Seq<char>
    decreases lines.len(),
{
    if lines.len() == 0 {
        Seq::empty()
    } else {
        joined_lines(lines.drop_last()) + lines.last() + "\n"@
    }
}

/// Renders the HUD's whole target list, one newline-terminated line per
/// tagged container.
pub fn target_list_text(hud: &HUDData) -> (r: String)
    ensures
        r@ == joined_lines(hud.meme_data@.map_values(|s: String| s@)),
{
    let ghost all = hud.meme_data@.map_values(|s: String| s@);
    let mut text = String::new();
    let mut i: usize = 0;
    proof {
        assert(text@ =~= joined_lines(all.take(0)));
    }
    while i < hud.meme_data.len()
        invariant
            i <= hud.meme_data@.len(),
            all == hud.meme_data@.map_values(|s: String| s@),
            text@ == joined_lines(all.take(i as int)),
        decreases hud.meme_data@.len() - i,
    {
        text.append(hud.meme_data[i].as_str());
        text.append("\n");
        proof {
            assert(all.take(i + 1).drop_last() =~= all.take(i as int));
            assert(all.take(i + 1).last() == all[i as int]);
            assert(text@ =~= joined_lines(all.take(i + 1)));
        }
        i = i + 1;
    }
    proof {
        assert(all.take(hud.meme_data@.len() as int) =~= all);
    }
    text
}

/// Limit on the heights and scroll offsets the list widget handles, in
/// thousandths of a UI pixel.
pub const SCROLL_LIMIT: i64 = 1_000_000_000_000;

/// Largest wheel delta accepted for one event.
pub const SCROLL_DELTA_LIMIT: i64 = 1_000_000_000;

/// How many pixels one line-unit wheel step scrolls.
pub const LINE_STEP: i64 = 20;

/// The unit a mouse-wheel event reports its delta in.
#[derive(Clone, Copy, PartialEq, Eq, Structural, Debug)]
pub enum WheelUnit {
    Line,
    Pixel,
}

/// Scroll position of the target-list panel, in thousandths of a UI pixel,
/// never positive (0 is the top) and never below the machine bound.
#[derive(Clone, Copy, PartialEq, Eq, Structural, Debug)]
pub struct ScrollingList {
    pub position: i64,
}

impl ScrollingList {
    /// The panel is never scrolled above its top nor past the machine
    /// bound.
    pub open spec fn wf(self) -> bool {
        -SCROLL_LIMIT <= self.position <= 0
    }
}

impl Default for ScrollingList {
    /// A fresh list sits at its top.
    fn default() -> (r: ScrollingList)
        ensures
            r == (ScrollingList { position: 0 }),
            r.wf(),
    {
        ScrollingList { position: 0 }
    }
}

/// The new scroll position after a wheel event: line deltas count
/// [`LINE_STEP`] pixels each, and the position is clamped between
/// `-(items_height - container_height)` (all the way down; zero when the
/// list already fits) and `0` (the top).
pub open spec fn scroll_update_spec(
    position: int,
    unit: WheelUnit,
    delta: int,
    items_height: int,
    container_height: int,
) -> int {
    let max_scroll = if items_height - container_height > 0 {
        items_height - container_height
    } else {
        0
    };
    let step = match unit {
        WheelUnit::Line => delta * LINE_STEP,
        WheelUnit::Pixel => delta,
    };
    clamp_spec(position + step, -max_scroll, 0)
}

/// Applies one mouse-wheel event to the target list's scroll position.
pub fn mouse_scroll(
    list: &mut ScrollingList,
    unit: WheelUnit,
    delta: i64,
    items_height: i64,
    container_height: i64,
)
    requires
        old(list).wf(),
        abs_val(delta as int) <= SCROLL_DELTA_LIMIT as int,
        0 <= items_height <= SCROLL_LIMIT,
        0 <= container_height <= SCROLL_LIMIT,
    ensures
        final(list).position as int == scroll_update_spec(
            old(list).position as int,
            unit,
            delta as int,
            items_height as int,
            container_height as int,
        ),
        final(list).wf(),
{
    let max_scroll: i64 = if items_height - container_height > 0 {
        items_height - container_height
    } else {
        0
    };
    let step: i64 = match unit {
        WheelUnit::Line => delta * LINE_STEP,
        WheelUnit::Pixel => delta,
    };
    let moved: i64 = list.position + step;
    list.position = if moved < -max_scroll {
        -max_scroll
    } else if moved > 0 {
        0
    } else {
        moved
    };
}

} // verus!
