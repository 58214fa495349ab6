//! Laying the status bar's values out on a character grid.
//!
//! The grid is cut into three bands (48/4/48 per cent, top to bottom); all
//! text goes in the middle one. That band is cut into a logo, a workspace
//! tracker and a reading area (10/30/60 per cent), and the reading area into
//! CPU load, memory usage and the clock (30/30/40 per cent).
use vstd::prelude::*;
use crate::app::{App, AppView};
use crate::text::{decimal, push_char, push_decimal, push_two_digits, two_digits};

verus! {

/// A rectangle of character cells.
#[derive(Clone, Copy, Debug, PartialEq, Eq)]
pub struct Area {
    pub x: u16,
    pub y: u16,
    pub width: u16,
    pub height: u16,
}

impl View for Area {
    type V = (u16, u16, u16, u16);

    open spec fn view(&self) -> (u16, u16, u16, u16) {
        (self.x, self.y, self.width, self.height)
    }
}

/// The direction in which an area is cut.
#[derive(Clone, Copy, Debug, PartialEq, Eq)]
pub enum Axis {
    Horizontal,
    Vertical,
}

/// Where text sits inside its area.
#[derive(Clone, Copy, Debug, PartialEq, Eq)]
pub enum Alignment {
    Left,
    Center,
    Right,
}

/// A piece of text to draw in an area.
#[derive(Debug)]
pub struct Fragment {
    pub area: Area,
    pub text: String,
    pub alignment: Alignment,
}

impl View for Fragment {
    type V = ((u16, u16, u16, u16), Seq<char>, Alignment);

    open spec fn view(&self) -> ((u16, u16, u16, u16), Seq<char>, Alignment) {
        (self.area@, self.text@, self.alignment)
    }
}

/// The areas that cutting `area` along an axis (vertical when `vertical`)
/// into the given percentages yields, as the layout solver computes them.
pub uninterp spec fn split_of(
    area: (u16, u16, u16, u16),
    vertical: bool,
    percents: Seq<u16>,
) -> Seq<(u16, u16, u16, u16)>;

/// The sum of a list of percentages.
pub open spec fn percent_total(percents: Seq<u16>) -> int
    decreases percents.len(),
{
    if percents.len() == 0 {
        0
    } else {
        percent_total(percents.drop_last()) + percents.last()
    }
}

/// `piece` lies inside `area`.
pub open spec fn lies_within(piece: (u16, u16, u16, u16), area: (u16, u16, u16, u16)) -> bool {
    &&& area.0 <= piece.0
    &&& piece.0 + piece.2 <= area.0 + area.2
    &&& area.1 <= piece.1
    &&& piece.1 + piece.3 <= area.1 + area.3
}

/// Relies on `ratatui::layout::Layout::split` with `Constraint::Percentage`
/// constraints that add up to one hundred, so that every size is pinned: one
/// area for each constraint, in order, depending on the area, the direction
/// and the constraints alone, each inside the area that is cut (the solver
/// holds every boundary between the area's start and end).
#[verifier::external_body]
fn split_area(area: Area, axis: Axis, percents: &Vec<u16>) -> (r: Vec<Area>)
    requires
        percent_total(percents@) == 100,
    ensures
        r@.len() == percents@.len(),
        forall|i: int| 0 <= i < r@.len() ==> lies_within(#[trigger] r@[i]@, area@),
        forall|i: int|
            0 <= i < r@.len() ==> #[trigger] r@[i]@ == split_of(
                area@,
                axis == Axis::Vertical,
                percents@,
            )[i],
{
    let direction = match axis {
        Axis::Horizontal => ratatui::layout::Direction::Horizontal,
        Axis::Vertical => ratatui::layout::Direction::Vertical,
    };
    let rect = ratatui::layout::Rect { x: area.x, y: area.y, width: area.width, height: area.height };
    let constraints = percents.iter().map(|p| ratatui::layout::Constraint::Percentage(*p));
    let rects = ratatui::layout::Layout::default().direction(direction).constraints(constraints).split(rect);
    rects.iter().map(|r| Area { x: r.x, y: r.y, width: r.width, height: r.height }).collect()
}

/// Marker of the focused workspace.
pub const ACTIVE_MARKER: char = '○';

/// Marker of every other workspace.
pub const INACTIVE_MARKER: char = '●';

/// Number of workspaces that the tracker shows.
pub const TRACKED_WORKSPACES: u32 = 10;

/// The tracker row: one marker per workspace `0..10`, each followed by a
/// space; the focused one, if among them, has the active marker.
pub open spec fn tracker_row(active: Option<u32>) -> Seq<char> {
    Seq::new(
        2 * TRACKED_WORKSPACES as nat,
        |i: int|
            if i % 2 == 1 {
                ' '
            } else if active == Some((i / 2) as u32) {
                ACTIVE_MARKER
            } else {
                INACTIVE_MARKER
            },
    )
}

/// The workspace tracker row for the focused workspace `active`.
pub fn workspace_row(active: Option<u32>) -> (r: String)
    ensures
        r@ == tracker_row(active),
{
    let mut s = String::new();
    let mut i: u32 = 0;
    while i < TRACKED_WORKSPACES
        invariant
            i <= TRACKED_WORKSPACES,
            s@ =~= tracker_row(active).take(2 * i as int),
        decreases TRACKED_WORKSPACES - i,
    {
        let is_active = match active {
            Some(id) => id == i,
            None => false,
        };
        if is_active {
            push_char(&mut s, ACTIVE_MARKER);
        } else {
            push_char(&mut s, INACTIVE_MARKER);
        }
        push_char(&mut s, ' ');
        assert(s@ =~= tracker_row(active).take(2 * (i + 1) as int));
        i = i + 1;
    }
    s
}

/// `label`, then `hundredths` as a per cent with two decimals, then `%`.
pub open spec fn percent_text_spec(label: Seq<char>, hundredths: nat) -> Seq<char> {
    label + decimal(hundredths / 100) + seq!['.'] + two_digits(hundredths % 100) + seq!['%']
}

/// `label` followed by a percentage given in hundredths, as in `12.34%`.
pub fn percent_text(label: &str, hundredths: u64) -> (r: String)
    ensures
        r@ == percent_text_spec(label@, hundredths as nat),
{
    let mut s = label.to_owned();
    push_decimal(&mut s, hundredths / 100);
    push_char(&mut s, '.');
    push_two_digits(&mut s, hundredths % 100);
    push_char(&mut s, '%');
    assert(s@ =~= percent_text_spec(label@, hundredths as nat));
    s
}

/// The logo in the leftmost area.
pub open spec fn logo() -> Seq<char> {
    seq!['ʕ', '•', 'ᴥ', '•', 'ʔ']
}

fn logo_text() -> (r: String)
    ensures
        r@ == logo(),
{
    let mut s = String::new();
    push_char(&mut s, 'ʕ');
    push_char(&mut s, '•');
    push_char(&mut s, 'ᴥ');
    push_char(&mut s, '•');
    push_char(&mut s, 'ʔ');
    assert(s@ =~= logo());
    s
}

/// The middle band of the grid.
pub open spec fn middle_band(area: (u16, u16, u16, u16)) -> (u16, u16, u16, u16) {
    split_of(area, true, seq![48u16, 4, 48])[1]
}

/// Logo, tracker and reading areas of the middle band.
pub open spec fn columns(area: (u16, u16, u16, u16)) -> Seq<(u16, u16, u16, u16)> {
    split_of(middle_band(area), false, seq![10u16, 30, 60])
}

/// CPU, memory and clock areas of the reading area.
pub open spec fn readings(area: (u16, u16, u16, u16)) -> Seq<(u16, u16, u16, u16)> {
    split_of(columns(area)[2], false, seq![30u16, 30, 40])
}

/// What is drawn for state `app` on a grid of size `area`: nothing when the
/// grid has no cells, else the logo, the tracker, the clock, and the CPU and
/// memory readings.
pub open spec fn rendered(app: AppView, area: (u16, u16, u16, u16)) -> Seq<
    ((u16, u16, u16, u16), Seq<char>, Alignment),
> {
    if area.2 == 0 || area.3 == 0 {
        Seq::empty()
    } else {
        seq![
            (columns(area)[0], logo(), Alignment::Left),
            (columns(area)[1], tracker_row(app.active_workspace_id), Alignment::Center),
            (readings(area)[2], app.current_time, Alignment::Right),
            (readings(area)[0], percent_text_spec("CPU Usage: "@, app.cpu_usage as nat), Alignment::Center),
            (readings(area)[1], percent_text_spec("RAM Usage: "@, app.ram_usage as nat), Alignment::Center),
        ]
    }
}

/// The fragments to draw for `app` on a grid of size `area`; each lies
/// inside the grid's middle band.
pub fn render(app: &App, area: Area) -> (r: Vec<Fragment>)
    ensures
        r@.map_values(|f: Fragment| f@) == rendered(app@, area@),
        forall|i: int| 0 <= i < r@.len() ==> lies_within(#[trigger] r@[i].area@, area@),
        forall|i: int|
            0 <= i < r@.len() ==> lies_within(#[trigger] r@[i].area@, middle_band(area@)),
{
    let mut out: Vec<Fragment> = Vec::new();
    if area.width == 0 || area.height == 0 {
        assert(out@.map_values(|f: Fragment| f@) =~= rendered(app@, area@));
        return out;
    }
    let band_percents: Vec<u16> = vec![48, 4, 48];
    let column_percents: Vec<u16> = vec![10, 30, 60];
    let reading_percents: Vec<u16> = vec![30, 30, 40];
    proof {
        reveal_with_fuel(percent_total, 4);
        assert(band_percents@.drop_last().drop_last().drop_last() =~= Seq::<u16>::empty());
        assert(column_percents@.drop_last().drop_last().drop_last() =~= Seq::<u16>::empty());
        assert(reading_percents@.drop_last().drop_last().drop_last() =~= Seq::<u16>::empty());
    }
    let bands = split_area(area, Axis::Vertical, &band_percents);
    let cols = split_area(bands[1], Axis::Horizontal, &column_percents);
    let right = split_area(cols[2], Axis::Horizontal, &reading_percents);
    assert(lies_within(bands@[1]@, area@));
    assert(lies_within(cols@[0]@, area@) && lies_within(cols@[1]@, area@) && lies_within(cols@[2]@, area@));
    assert(lies_within(right@[0]@, area@) && lies_within(right@[1]@, area@) && lies_within(right@[2]@, area@));
    assert(bands@[1]@ == middle_band(area@));
    out.push(Fragment { area: cols[0], text: logo_text(), alignment: Alignment::Left });
    out.push(
        Fragment {
            area: cols[1],
            text: workspace_row(app.active_workspace_id),
            alignment: Alignment::Center,
        },
    );
    out.push(
        Fragment { area: right[2], text: app.current_time.clone(), alignment: Alignment::Right },
    );
    out.push(
        Fragment {
            area: right[0],
            text: percent_text("CPU Usage: ", app.cpu_usage),
            alignment: Alignment::Center,
        },
    );
    out.push(
        Fragment {
            area: right[1],
            text: percent_text("RAM Usage: ", app.ram_usage),
            alignment: Alignment::Center,
        },
    );
    assert(out@.map_values(|f: Fragment| f@) =~= rendered(app@, area@));
    out
}

/// The tracker has ten markers; the one at the focused workspace's place is
/// the active marker and all others are the inactive one, so that with no
/// focused workspace, or one numbered ten or more, every marker is inactive.
pub proof fn lemma_tracker_markers(active: Option<u32>)
    ensures
        tracker_row(active).len() == 20,
        forall|k: int|
            0 <= k < 10 ==> (#[trigger] tracker_row(active)[2 * k] == ACTIVE_MARKER <==> active
                == Some(k as u32)),
        forall|k: int|
            0 <= k < 10 ==> (#[trigger] tracker_row(active)[2 * k] == ACTIVE_MARKER
                || tracker_row(active)[2 * k] == INACTIVE_MARKER),
        forall|k: int| 0 <= k < 10 ==> #[trigger] tracker_row(active)[2 * k + 1] == ' ',
        (active is None || active->0 >= TRACKED_WORKSPACES) ==> forall|k: int|
            0 <= k < 10 ==> #[trigger] tracker_row(active)[2 * k] == INACTIVE_MARKER,
{
    assert forall|k: int| 0 <= k < 10 implies #[trigger] tracker_row(active)[2 * k + 1] == ' ' by {
        assert((2 * k + 1) % 2 == 1);
    }
    assert forall|k: int| 0 <= k < 10 implies (#[trigger] tracker_row(active)[2 * k]
        == ACTIVE_MARKER <==> active == Some(k as u32)) by {
        assert((2 * k) % 2 == 0);
        assert((2 * k) / 2 == k);
    }
}

/// A grid without cells, of zero width or zero height, gets nothing drawn.
pub proof fn lemma_empty_grid_draws_nothing(app: AppView, area: (u16, u16, u16, u16))
    requires
        area.2 == 0 || area.3 == 0,
    ensures
        rendered(app, area).len() == 0,
{
}

} // verus!
