//! The state of the browser that shows platforms on the left and the devices
//! of the chosen platform on the right, and how keys change it.
//!
//! Nothing here draws or reads a key: the caller hands each key in and
//! paints what the state says.

use crate::clinfo::device_views;
use crate::clinfo::platform_views;
use crate::clinfo::DeviceInfo;
use crate::clinfo::DeviceInfoView;
use crate::clinfo::PlatformInfo;
use crate::clinfo::PlatformInfoView;
use vstd::prelude::*;

verus! {

/// Where the cursor of a list of `len` items stands after a step down from
/// `selected`: one further, from the last item or beyond it back to the
/// first, and on the first when nothing was selected.
pub open spec fn position_after(selected: Option<usize>, len: nat) -> nat {
    match selected {
        Some(i) => if i + 1 >= len {
            0
        } else {
            (i + 1) as nat
        },
        None => 0,
    }
}

/// Where the cursor of a list of `len` items stands after a step up from
/// `selected`: one back, from the first item to the last, and on the first
/// when nothing was selected or the list is empty.
pub open spec fn position_before(selected: Option<usize>, len: nat) -> nat {
    match selected {
        Some(i) => if i == 0 {
            last_position(len)
        } else {
            (i - 1) as nat
        },
        None => 0,
    }
}

/// The position of the last item of a list of `len` items, and 0 for the
/// empty list.
pub open spec fn last_position(len: nat) -> nat {
    if len == 0 {
        0
    } else {
        (len - 1) as nat
    }
}

/// Whether a cursor at `selected` has a place in a list of `len` items: it
/// is nowhere, or on an item, or on the first position of an empty list.
pub open spec fn settled(selected: Option<usize>, len: nat) -> bool {
    match selected {
        Some(i) => i <= last_position(len),
        None => true,
    }
}

/// Computes [`position_after`].
pub fn step_down(selected: Option<usize>, len: usize) -> (position: usize)
    ensures
        position == position_after(selected, len as nat),
{
    match selected {
        Some(i) => if len == 0 || i >= len - 1 {
            0
        } else {
            i + 1
        },
        None => 0,
    }
}

/// Computes [`position_before`].
pub fn step_up(selected: Option<usize>, len: usize) -> (position: usize)
    ensures
        position == position_before(selected, len as nat),
{
    match selected {
        Some(i) => if i == 0 {
            step_last(len)
        } else {
            i - 1
        },
        None => 0,
    }
}

/// Computes [`last_position`].
pub fn step_last(len: usize) -> (position: usize)
    ensures
        position == last_position(len as nat),
{
    if len == 0 {
        0
    } else {
        len - 1
    }
}

/// A list of devices with its cursor, as mathematical values.
pub struct DeviceListView {
    pub selected: Option<usize>,
    pub items: Seq<DeviceInfoView>,
}

impl DeviceListView {
    /// The list with the cursor on `selected`.
    pub open spec fn select(self, selected: Option<usize>) -> Self {
        DeviceListView { selected, items: self.items }
    }

    /// The list after a step down.
    pub open spec fn next(self) -> Self {
        self.select(Some(position_after(self.selected, self.items.len()) as usize))
    }

    /// The list after a step up.
    pub open spec fn previous(self) -> Self {
        self.select(Some(position_before(self.selected, self.items.len()) as usize))
    }

    /// The list with the cursor on the first item.
    pub open spec fn go_top(self) -> Self {
        self.select(Some(0))
    }

    /// The list with the cursor on the last item.
    pub open spec fn go_bottom(self) -> Self {
        self.select(Some(last_position(self.items.len()) as usize))
    }
}

/// The devices of one platform, and which of them the cursor is on.
#[derive(Debug)]
pub struct DeviceList {
    selected: Option<usize>,
    items: Vec<DeviceInfo>,
}

impl View for DeviceList {
    type V = DeviceListView;

    closed spec fn view(&self) -> DeviceListView {
        DeviceListView { selected: self.selected, items: device_views(self.items@) }
    }
}

impl DeviceList {
    /// A list of `items` with nothing selected.
    pub fn new(items: Vec<DeviceInfo>) -> (list: Self)
        ensures
            list@ == (DeviceListView { selected: None, items: device_views(items@) }),
    {
        DeviceList { selected: None, items }
    }

    /// The position of the cursor, if anything is selected.
    pub fn selected(&self) -> (selected: Option<usize>)
        ensures
            selected == self@.selected,
    {
        self.selected
    }

    /// The devices, in the order of the list.
    pub fn items(&self) -> (items: &[DeviceInfo])
        ensures
            device_views(items@) == self@.items,
    {
        self.items.as_slice()
    }

    /// Puts the cursor on `selected`, or takes it away.
    pub fn select(&mut self, selected: Option<usize>)
        ensures
            final(self)@ == old(self)@.select(selected),
    {
        self.selected = selected;
    }

    /// Moves the cursor one item down, from the last item to the first.
    pub fn next(&mut self)
        ensures
            final(self)@ == old(self)@.next(),
    {
        let position = step_down(self.selected, self.items.len());
        self.selected = Some(position);
    }

    /// Moves the cursor one item up, from the first item to the last.
    pub fn previous(&mut self)
        ensures
            final(self)@ == old(self)@.previous(),
    {
        let position = step_up(self.selected, self.items.len());
        self.selected = Some(position);
    }

    /// Puts the cursor on the first item.
    pub fn go_top(&mut self)
        ensures
            final(self)@ == old(self)@.go_top(),
    {
        self.selected = Some(0);
    }

    /// Puts the cursor on the last item.
    pub fn go_bottom(&mut self)
        ensures
            final(self)@ == old(self)@.go_bottom(),
    {
        let position = step_last(self.items.len());
        self.selected = Some(position);
    }
}

/// A platform with the list of its devices, as mathematical values.
pub struct PlatformItemView {
    pub info: PlatformInfoView,
    pub devices: DeviceListView,
}

/// A platform and the list of its devices.
#[derive(Debug)]
pub struct PlatformItem {
    info: PlatformInfo,
    devices: DeviceList,
}

impl View for PlatformItem {
    type V = PlatformItemView;

    closed spec fn view(&self) -> PlatformItemView {
        PlatformItemView { info: self.info@, devices: self.devices@ }
    }
}

impl PlatformItem {
    /// The item for `info`: its devices in their order, none selected.
    pub fn new(info: PlatformInfo) -> (item: Self)
        ensures
            item@.info == info@,
            item@.devices == (DeviceListView { selected: None, items: info@.devices }),
    {
        let devices = DeviceList::new(info.devices());
        PlatformItem { info, devices }
    }

    /// The record of the platform.
    pub fn info(&self) -> (info: &PlatformInfo)
        ensures
            info@ == self@.info,
    {
        &self.info
    }

    /// The devices of the platform, with their cursor.
    pub fn devices(&self) -> (devices: &DeviceList)
        ensures
            devices@ == self@.devices,
    {
        &self.devices
    }
}

/// The views of `items`, one by one.
pub open spec fn item_views(items: Seq<PlatformItem>) -> Seq<PlatformItemView> {
    items.map_values(|item: PlatformItem| item@)
}

/// The list of platforms with its cursor, as mathematical values.
pub struct PlatformListView {
    pub selected: Option<usize>,
    pub items: Seq<PlatformItemView>,
}

impl PlatformListView {
    /// The list that a browser starts with: one item for each of
    /// `platforms`, in their order, with no platform and no device selected.
    pub open spec fn of(platforms: Seq<PlatformInfoView>) -> Self {
        PlatformListView {
            selected: None,
            items: platforms.map_values(
                |info: PlatformInfoView|
                    PlatformItemView {
                        info,
                        devices: DeviceListView { selected: None, items: info.devices },
                    },
            ),
        }
    }

    /// The list with the cursor on `selected`.
    pub open spec fn select(self, selected: Option<usize>) -> Self {
        PlatformListView { selected, items: self.items }
    }

    /// The list after a step down.
    pub open spec fn next(self) -> Self {
        self.select(Some(position_after(self.selected, self.items.len()) as usize))
    }

    /// The list after a step up.
    pub open spec fn previous(self) -> Self {
        self.select(Some(position_before(self.selected, self.items.len()) as usize))
    }

    /// The list with the cursor on the first platform.
    pub open spec fn go_top(self) -> Self {
        self.select(Some(0))
    }

    /// The list with the cursor on the last platform.
    pub open spec fn go_bottom(self) -> Self {
        self.select(Some(last_position(self.items.len()) as usize))
    }

    /// Whether the cursor is on a platform of the list.
    pub open spec fn has_current(self) -> bool {
        self.selected.is_some() && self.selected.unwrap() < self.items.len()
    }

    /// The list with the device list of the platform under the cursor
    /// changed by `change`. Where the cursor is on no platform, the list as
    /// it is.
    pub open spec fn map_current(
        self,
        change: spec_fn(DeviceListView) -> DeviceListView,
    ) -> Self {
        if self.has_current() {
            let at = self.selected.unwrap() as int;
            PlatformListView {
                selected: self.selected,
                items: self.items.update(
                    at,
                    PlatformItemView {
                        info: self.items[at].info,
                        devices: change(self.items[at].devices),
                    },
                ),
            }
        } else {
            self
        }
    }
}

/// The platforms, and which of them the cursor is on.
#[derive(Debug)]
pub struct PlatformList {
    selected: Option<usize>,
    items: Vec<PlatformItem>,
}

impl View for PlatformList {
    type V = PlatformListView;

    closed spec fn view(&self) -> PlatformListView {
        PlatformListView { selected: self.selected, items: item_views(self.items@) }
    }
}

impl PlatformList {
    /// One item for each of `platforms`, in their order, with no platform
    /// and no device selected.
    pub fn from_platforms(platforms: &Vec<PlatformInfo>) -> (list: Self)
        ensures
            list@ == PlatformListView::of(platform_views(platforms@)),
    {
        let mut items: Vec<PlatformItem> = Vec::new();
        let mut i: usize = 0;
        while i < platforms.len()
            invariant
                i <= platforms.len(),
                item_views(items@) == PlatformListView::of(
                    platform_views(platforms@.subrange(0, i as int)),
                ).items,
            decreases platforms.len() - i,
        {
            let ghost so_far = items@;
            let item = PlatformItem::new(platforms[i].clone());
            items.push(item);
            i += 1;
            assert(platforms@.subrange(0, i as int) =~= platforms@.subrange(0, i - 1).push(
                platforms@[i - 1],
            ));
            assert(item_views(items@) =~= item_views(so_far).push(item@));
            assert(item_views(items@) =~= PlatformListView::of(
                platform_views(platforms@.subrange(0, i as int)),
            ).items);
        }
        assert(platforms@.subrange(0, i as int) =~= platforms@);
        PlatformList { selected: None, items }
    }

    /// The position of the cursor, if anything is selected.
    pub fn selected(&self) -> (selected: Option<usize>)
        ensures
            selected == self@.selected,
    {
        self.selected
    }

    /// The platforms, in the order of the list.
    pub fn items(&self) -> (items: &[PlatformItem])
        ensures
            item_views(items@) == self@.items,
    {
        self.items.as_slice()
    }

    /// Puts the cursor on `selected`, or takes it away.
    pub fn select(&mut self, selected: Option<usize>)
        ensures
            final(self)@ == old(self)@.select(selected),
    {
        self.selected = selected;
    }

    /// Moves the cursor one platform down, from the last to the first.
    pub fn next(&mut self)
        ensures
            final(self)@ == old(self)@.next(),
    {
        let position = step_down(self.selected, self.items.len());
        self.selected = Some(position);
    }

    /// Moves the cursor one platform up, from the first to the last.
    pub fn previous(&mut self)
        ensures
            final(self)@ == old(self)@.previous(),
    {
        let position = step_up(self.selected, self.items.len());
        self.selected = Some(position);
    }

    /// Puts the cursor on the first platform.
    pub fn go_top(&mut self)
        ensures
            final(self)@ == old(self)@.go_top(),
    {
        self.selected = Some(0);
    }

    /// Puts the cursor on the last platform.
    pub fn go_bottom(&mut self)
        ensures
            final(self)@ == old(self)@.go_bottom(),
    {
        let position = step_last(self.items.len());
        self.selected = Some(position);
    }
}

/// A key that was pressed.
#[derive(Clone, Copy, Debug, PartialEq, Eq, Structural)]
pub enum Key {
    Char(char),
    Left,
    Right,
    Up,
    Down,
    Enter,
    Esc,
    /// Any key that the browser gives no meaning to.
    Other,
}

impl Key {
    /// Whether the key ends the browser: `q` and escape do.
    pub open spec fn leaves_browser(self) -> bool {
        self == Key::Char('q') || self == Key::Esc
    }

    /// Whether the key ends the plain overview of the platforms: only `q`
    /// does.
    pub open spec fn leaves_overview(self) -> bool {
        self == Key::Char('q')
    }

    /// Computes [`Key::leaves_overview`].
    pub fn ends_overview(self) -> (ends: bool)
        ensures
            ends == self.leaves_overview(),
    {
        match self {
            Key::Char(c) => c == 'q',
            _ => false,
        }
    }
}

/// A share of `divider_percentage` percent moved by `length` percent and
/// kept between 0 and 100.
pub open spec fn divider_after(divider_percentage: u16, length: i16) -> u16 {
    if divider_percentage + length < 0 {
        0
    } else if divider_percentage + length > 100 {
        100
    } else {
        (divider_percentage + length) as u16
    }
}

/// A share of a whole, in percent: never more than 100.
#[derive(Clone, Copy, Debug)]
pub struct Percentage {
    value: u16,
}

impl View for Percentage {
    type V = u16;

    closed spec fn view(&self) -> u16 {
        self.value
    }
}

impl Percentage {
    #[verifier::type_invariant]
    spec fn in_range(self) -> bool {
        self.value <= 100
    }

    /// The share of `value` percent, and 100 percent where `value` is more.
    pub fn new(value: u16) -> (share: Self)
        ensures
            share@ == if value > 100 { 100u16 } else { value },
    {
        if value > 100 {
            Percentage { value: 100 }
        } else {
            Percentage { value }
        }
    }

    /// The share as a number from 0 to 100.
    pub fn get(self) -> (value: u16)
        ensures
            value == self@,
            value <= 100,
    {
        proof {
            use_type_invariant(self);
        }
        self.value
    }

    /// What is left of the whole: the two shares add up to 100.
    pub fn rest(self) -> (value: u16)
        ensures
            value == 100 - self@,
    {
        proof {
            use_type_invariant(self);
        }
        100 - self.value
    }

    /// The share moved by `length` percent, down where `length` is
    /// negative, and stopped at 0 and at 100.
    pub fn moved(self, length: i16) -> (share: Self)
        ensures
            share@ == divider_after(self@, length),
    {
        proof {
            use_type_invariant(self);
        }
        let moved: i32 = self.value as i32 + length as i32;
        if moved < 0 {
            Percentage { value: 0 }
        } else if moved > 100 {
            Percentage { value: 100 }
        } else {
            Percentage { value: moved as u16 }
        }
    }
}

/// The state of the browser, as mathematical values.
pub struct AppView {
    /// Whether the left pane, the list of platforms, has the focus.
    pub currently_left: bool,
    pub items: PlatformListView,
    /// The share of the width that the left pane takes, in percent.
    pub divider_percentage: u16,
}

impl AppView {
    /// The state in which the browser starts on `platforms`: the focus on
    /// the left, nothing selected, the left pane at 40 percent.
    pub open spec fn start(platforms: Seq<PlatformInfoView>) -> Self {
        AppView {
            currently_left: true,
            items: PlatformListView::of(platforms),
            divider_percentage: 40,
        }
    }

    /// Whether every cursor has a place in its list and the left pane takes
    /// no more than the whole width. The browser is in such a state from
    /// its start on, whatever keys are pressed.
    pub open spec fn settled(self) -> bool {
        &&& settled(self.items.selected, self.items.items.len())
        &&& forall|at: int|
            0 <= at < self.items.items.len() ==> settled(
                (#[trigger] self.items.items[at]).devices.selected,
                self.items.items[at].devices.items.len(),
            )
        &&& self.divider_percentage <= 100
    }

    /// The records that the browser shows: each platform with its devices.
    pub open spec fn shown(self) -> Seq<PlatformInfoView> {
        self.items.items.map_values(|item: PlatformItemView| item.info)
    }

    /// The state with `items` as the list of platforms.
    pub open spec fn with_items(self, items: PlatformListView) -> Self {
        AppView {
            currently_left: self.currently_left,
            items,
            divider_percentage: self.divider_percentage,
        }
    }

    /// The state with the focus on the left or on the right pane.
    pub open spec fn with_focus(self, currently_left: bool) -> Self {
        AppView { currently_left, items: self.items, divider_percentage: self.divider_percentage }
    }

    /// The state with the focus on the left pane.
    pub open spec fn move_left(self) -> Self {
        self.with_focus(true)
    }

    /// The state with the focus on the right pane.
    pub open spec fn move_right(self) -> Self {
        self.with_focus(false)
    }

    /// The state after a step down in the pane that has the focus: on the
    /// left among the platforms, on the right among the devices of the
    /// platform under the cursor. On the right with the cursor on no
    /// platform, the state as it is.
    pub open spec fn next(self) -> Self {
        if self.currently_left {
            self.with_items(self.items.next())
        } else {
            self.with_items(self.items.map_current(|devices: DeviceListView| devices.next()))
        }
    }

    /// The state after a step up in the pane that has the focus.
    pub open spec fn previous(self) -> Self {
        if self.currently_left {
            self.with_items(self.items.previous())
        } else {
            self.with_items(self.items.map_current(|devices: DeviceListView| devices.previous()))
        }
    }

    /// The state with the cursor of the pane that has the focus on its
    /// first item.
    pub open spec fn go_top(self) -> Self {
        if self.currently_left {
            self.with_items(self.items.go_top())
        } else {
            self.with_items(self.items.map_current(|devices: DeviceListView| devices.go_top()))
        }
    }

    /// The state with the cursor of the pane that has the focus on its last
    /// item.
    pub open spec fn go_bottom(self) -> Self {
        if self.currently_left {
            self.with_items(self.items.go_bottom())
        } else {
            self.with_items(self.items.map_current(|devices: DeviceListView| devices.go_bottom()))
        }
    }

    /// The state with the left pane wider by `length` percent, narrower
    /// where `length` is negative, and never under 0 or over 100 percent.
    pub open spec fn move_divider(self, length: i16) -> Self {
        AppView {
            currently_left: self.currently_left,
            items: self.items,
            divider_percentage: divider_after(self.divider_percentage, length),
        }
    }

    /// The state after `key` was pressed.
    ///
    /// `h` and the left arrow give the focus to the left pane; `l`, the
    /// right arrow and enter give it to the right pane. `j` and the down
    /// arrow step down, `k` and the up arrow step up, `g` goes to the top
    /// and `G` to the bottom. `H` narrows the left pane by 5 percent and `L`
    /// widens it by 5. Any other key changes nothing.
    pub open spec fn after_key(self, key: Key) -> Self {
        match key {
            Key::Char(c) => if c == 'h' {
                self.move_left()
            } else if c == 'j' {
                self.next()
            } else if c == 'k' {
                self.previous()
            } else if c == 'l' {
                self.move_right()
            } else if c == 'g' {
                self.go_top()
            } else if c == 'G' {
                self.go_bottom()
            } else if c == 'H' {
                self.move_divider(-5i16)
            } else if c == 'L' {
                self.move_divider(5i16)
            } else {
                self
            },
            Key::Left => self.move_left(),
            Key::Down => self.next(),
            Key::Up => self.previous(),
            Key::Right => self.move_right(),
            Key::Enter => self.move_right(),
            Key::Esc => self,
            Key::Other => self,
        }
    }
}

/// The state of the browser: which pane has the focus, where the cursors
/// stand, and how the width is divided between the panes.
#[derive(Debug)]
pub struct App {
    currently_left: bool,
    items: PlatformList,
    divider_percentage: Percentage,
}

impl View for App {
    type V = AppView;

    closed spec fn view(&self) -> AppView {
        AppView {
            currently_left: self.currently_left,
            items: self.items@,
            divider_percentage: self.divider_percentage@,
        }
    }
}

impl App {
    /// The browser as it starts on `platforms`.
    pub fn new(platforms: &Vec<PlatformInfo>) -> (app: Self)
        ensures
            app@ == AppView::start(platform_views(platforms@)),
    {
        App {
            currently_left: true,
            items: PlatformList::from_platforms(platforms),
            divider_percentage: Percentage::new(40),
        }
    }

    /// Whether the left pane has the focus.
    pub fn currently_left(&self) -> (left: bool)
        ensures
            left == self@.currently_left,
    {
        self.currently_left
    }

    /// Whether the pane on the left (`is_left`) or on the right has the
    /// focus, and so is drawn in the stronger colour.
    pub fn has_focus(&self, is_left: bool) -> (focused: bool)
        ensures
            focused == (self@.currently_left == is_left),
    {
        self.currently_left == is_left
    }

    /// The platforms with their cursor.
    pub fn items(&self) -> (items: &PlatformList)
        ensures
            items@ == self@.items,
    {
        &self.items
    }

    /// The share of the width that the left pane takes, in percent.
    pub fn divider_percentage(&self) -> (percentage: u16)
        ensures
            percentage == self@.divider_percentage,
            percentage <= 100,
    {
        self.divider_percentage.get()
    }

    /// The shares of the width that the left and the right pane take, in
    /// percent: together they take all of it.
    pub fn pane_widths(&self) -> (widths: (u16, u16))
        ensures
            widths.0 == self@.divider_percentage,
            widths.0 + widths.1 == 100,
    {
        (self.divider_percentage.get(), self.divider_percentage.rest())
    }

    /// Gives the focus to the right pane.
    pub fn move_right(&mut self)
        ensures
            final(self)@ == old(self)@.move_right(),
    {
        self.currently_left = false;
    }

    /// Gives the focus to the left pane.
    pub fn move_left(&mut self)
        ensures
            final(self)@ == old(self)@.move_left(),
    {
        self.currently_left = true;
    }

    /// Puts the cursor of the pane that has the focus on its first item. On
    /// the right with the cursor on no platform, nothing changes.
    pub fn go_top(&mut self)
        ensures
            final(self)@ == old(self)@.go_top(),
    {
        if self.currently_left {
            self.items.go_top();
        } else if let Some(i) = self.items.selected {
            if i < self.items.items.len() {
                self.items.items[i].devices.go_top();
                assert(item_views(self.items.items@) =~= old(self)@.go_top().items.items);
            }
        }
    }

    /// Puts the cursor of the pane that has the focus on its last item. On
    /// the right with the cursor on no platform, nothing changes.
    pub fn go_bottom(&mut self)
        ensures
            final(self)@ == old(self)@.go_bottom(),
    {
        if self.currently_left {
            self.items.go_bottom();
        } else if let Some(i) = self.items.selected {
            if i < self.items.items.len() {
                self.items.items[i].devices.go_bottom();
                assert(item_views(self.items.items@) =~= old(self)@.go_bottom().items.items);
            }
        }
    }

    /// Makes the left pane wider by `length` percent, narrower where
    /// `length` is negative, and stops at 0 and at 100 percent.
    pub fn move_divider(&mut self, length: i16)
        ensures
            final(self)@ == old(self)@.move_divider(length),
    {
        self.divider_percentage = self.divider_percentage.moved(length);
    }

    /// Moves the cursor of the pane that has the focus one item down. On the
    /// right with the cursor on no platform, nothing changes.
    pub fn next(&mut self)
        ensures
            final(self)@ == old(self)@.next(),
    {
        if self.currently_left {
            self.items.next();
        } else if let Some(i) = self.items.selected {
            if i < self.items.items.len() {
                self.items.items[i].devices.next();
                assert(item_views(self.items.items@) =~= old(self)@.next().items.items);
            }
        }
    }

    /// Moves the cursor of the pane that has the focus one item up. On the
    /// right with the cursor on no platform, nothing changes.
    pub fn previous(&mut self)
        ensures
            final(self)@ == old(self)@.previous(),
    {
        if self.currently_left {
            self.items.previous();
        } else if let Some(i) = self.items.selected {
            if i < self.items.items.len() {
                self.items.items[i].devices.previous();
                assert(item_views(self.items.items@) =~= old(self)@.previous().items.items);
            }
        }
    }

    /// Takes the key that was pressed and changes the state as
    /// [`AppView::after_key`] says. Returns whether the key ends the
    /// browser, which `q` and escape do; the state is then as it was.
    pub fn handle_key(&mut self, key: Key) -> (quit: bool)
        ensures
            quit == key.leaves_browser(),
            final(self)@ == old(self)@.after_key(key),
    {
        match key {
            Key::Char(c) => {
                if c == 'q' {
                    return true;
                } else if c == 'h' {
                    self.move_left();
                } else if c == 'j' {
                    self.next();
                } else if c == 'k' {
                    self.previous();
                } else if c == 'l' {
                    self.move_right();
                } else if c == 'g' {
                    self.go_top();
                } else if c == 'G' {
                    self.go_bottom();
                } else if c == 'H' {
                    self.move_divider(-5);
                } else if c == 'L' {
                    self.move_divider(5);
                }
                false
            },
            Key::Esc => true,
            Key::Left => {
                self.move_left();
                false
            },
            Key::Down => {
                self.next();
                false
            },
            Key::Up => {
                self.previous();
                false
            },
            Key::Right => {
                self.move_right();
                false
            },
            Key::Enter => {
                self.move_right();
                false
            },
            Key::Other => false,
        }
    }
}

} // verus!
