//! An immutable, indexable registry of monitor descriptors captured from
//! one enumeration pass, with borrowed per-monitor views.
//!
//! A registry starts empty, is populated by sequential appends (each
//! optionally marking its entry primary), and is then frozen and shared for
//! read-only queries. Refreshing monitor data means building a new registry,
//! never updating an old one.

use vstd::arithmetic::mul::lemma_mul_upper_bound;
use vstd::prelude::*;

use crate::geometry::LogicalSize;
use crate::geometry::PhysicalSize;
use crate::geometry::ScaleFactor;

verus! {

/// Represents the index of a monitor in a monitor list.
///
/// An index is meaningful only with respect to the registry snapshot that
/// issued it: resolving it against a different registry, or against live
/// hardware after a topology change, is a documented hazard the registry
/// cannot detect.
#[derive(Debug, Clone, Copy, PartialEq, Eq, Structural)]
pub struct MonitorIndex(pub usize);

/// Mathematical model of one monitor descriptor.
#[verifier::ext_equal]
pub ghost struct MonitorDataV {
    pub physical_size: PhysicalSize,
    pub scale_factor: ScaleFactor,
    pub name: Option<Seq<char>>,
    pub refresh_rate_millihertz: Option<u32>,
}

impl MonitorDataV {
    /// The logical size of a monitor is a pure function of its physical
    /// size and scale factor: each physical dimension times the scale
    /// ratio, kept exact in thousandths of a logical pixel.
    pub open spec fn logical_size(self) -> LogicalSize {
        LogicalSize {
            width_milli: (self.physical_size.width * self.scale_factor.per_mille) as u64,
            height_milli: (self.physical_size.height * self.scale_factor.per_mille) as u64,
        }
    }
}

/// Contains all the important information about a monitor.
#[derive(Debug)]
pub struct MonitorData {
    /// The size of the monitor in physical pixels.
    physical_size: PhysicalSize,
    /// The scale factor of the monitor.
    scale_factor: ScaleFactor,
    name: Option<String>,
    refresh_rate_millihertz: Option<u32>,
}

impl View for MonitorData {
    type V = MonitorDataV;

    closed spec fn view(&self) -> MonitorDataV {
        MonitorDataV {
            physical_size: self.physical_size,
            scale_factor: self.scale_factor,
            name: self.name.deep_view(),
            refresh_rate_millihertz: self.refresh_rate_millihertz,
        }
    }
}

impl MonitorData {
    /// Creates a new descriptor with the given physical size, scale factor,
    /// name and refresh rate.
    pub fn new(
        physical_size: PhysicalSize,
        scale_factor: ScaleFactor,
        name: Option<String>,
        refresh_rate_millihertz: Option<u32>,
    ) -> (r: Self)
        ensures
            r@ == (MonitorDataV {
                physical_size,
                scale_factor,
                name: name.deep_view(),
                refresh_rate_millihertz,
            }),
    {
        Self { physical_size, scale_factor, name, refresh_rate_millihertz }
    }

    /// Returns the size of the monitor in logical pixels by applying the
    /// scale factor of the monitor to its physical size.
    ///
    /// This ignores any scale factor set for a window.
    pub fn size(&self) -> (r: LogicalSize)
        ensures
            r == self@.logical_size(),
    {
        proof {
            lemma_mul_upper_bound(
                self.physical_size.width as int,
                u32::MAX as int,
                self.scale_factor.per_mille as int,
                u32::MAX as int,
            );
            lemma_mul_upper_bound(
                self.physical_size.height as int,
                u32::MAX as int,
                self.scale_factor.per_mille as int,
                u32::MAX as int,
            );
        }
        let width: u64 = self.physical_size.width as u64 * self.scale_factor.per_mille as u64;
        let height: u64 = self.physical_size.height as u64 * self.scale_factor.per_mille as u64;
        LogicalSize { width_milli: width, height_milli: height }
    }

    /// Returns the scale factor of the monitor.
    pub fn scale_factor(&self) -> (r: ScaleFactor)
        ensures
            r == self@.scale_factor,
    {
        self.scale_factor
    }

    /// Returns the name of the monitor.
    pub fn name(&self) -> (r: Option<&str>)
        ensures
            match r {
                Some(name) => self@.name == Some(name@),
                None => self@.name is None,
            },
    {
        match &self.name {
            Some(name) => Some(name.as_str()),
            None => None,
        }
    }

    /// Returns the refresh rate of the monitor in millihertz.
    pub fn refresh_rate_millihertz(&self) -> (r: Option<u32>)
        ensures
            r == self@.refresh_rate_millihertz,
    {
        self.refresh_rate_millihertz
    }
}

impl Clone for MonitorData {
    fn clone(&self) -> (r: Self)
        ensures
            r@ == self@,
    {
        MonitorData {
            physical_size: self.physical_size,
            scale_factor: self.scale_factor,
            name: match &self.name {
                Some(name) => Some(name.clone()),
                None => None,
            },
            refresh_rate_millihertz: self.refresh_rate_millihertz,
        }
    }
}

/// Mathematical model of a registry snapshot: the descriptors in append
/// order, and the index of the entry recorded as primary, if any.
#[verifier::ext_equal]
pub ghost struct MonitorListV {
    pub monitors: Seq<MonitorDataV>,
    pub primary: Option<int>,
}

impl MonitorListV {
    /// The registry after one append: the descriptor goes to the next
    /// index, and when `is_primary` is set that new index becomes the
    /// primary, overwriting any previously recorded one.
    pub open spec fn with_monitor(self, is_primary: bool, monitor: MonitorDataV) -> MonitorListV {
        MonitorListV {
            monitors: self.monitors.push(monitor),
            primary: if is_primary {
                Some(self.monitors.len() as int)
            } else {
                self.primary
            },
        }
    }

    /// The recorded primary, when set, falls within the registry's bounds.
    pub open spec fn primary_in_bounds(self) -> bool {
        self.primary matches Some(i) ==> 0 <= i < self.monitors.len()
    }

    /// The registry after a whole sequence of appends, first entry first:
    /// each entry is a primary flag and a descriptor, as handed to
    /// [`MonitorList::add_monitor`].
    pub open spec fn with_monitors(self, entries: Seq<(bool, MonitorDataV)>) -> MonitorListV
        decreases entries.len(),
    {
        if entries.len() == 0 {
            self
        } else {
            self.with_monitor(entries[0].0, entries[0].1).with_monitors(entries.drop_first())
        }
    }
}

/// A sequence of appends grows the registry by exactly one descriptor per
/// entry.
pub proof fn lemma_with_monitors_len(lv: MonitorListV, entries: Seq<(bool, MonitorDataV)>)
    ensures
        lv.with_monitors(entries).monitors.len() == lv.monitors.len() + entries.len(),
    decreases entries.len(),
{
    if entries.len() > 0 {
        lemma_with_monitors_len(lv.with_monitor(entries[0].0, entries[0].1), entries.drop_first());
    }
}

/// Appends that do not flag their entry as primary never change which
/// entry is recorded as primary.
pub proof fn lemma_no_primary_flag_keeps_primary(lv: MonitorListV, entries: Seq<(bool, MonitorDataV)>)
    requires
        forall|i: int| 0 <= i < entries.len() ==> !(#[trigger] entries[i]).0,
    ensures
        lv.with_monitors(entries).primary == lv.primary,
    decreases entries.len(),
{
    if entries.len() > 0 {
        lemma_no_primary_flag_keeps_primary(
            lv.with_monitor(entries[0].0, entries[0].1),
            entries.drop_first(),
        );
    }
}

/// When several appended entries are flagged primary, the last flagged one
/// wins: after any sequence of appends whose last flagged entry stands at
/// offset `k`, the recorded primary is the index that entry received,
/// whatever primary was recorded before.
pub proof fn lemma_last_primary_flag_wins(
    lv: MonitorListV,
    entries: Seq<(bool, MonitorDataV)>,
    k: int,
)
    requires
        0 <= k < entries.len(),
        entries[k].0,
        forall|j: int| k < j < entries.len() ==> !(#[trigger] entries[j]).0,
    ensures
        lv.with_monitors(entries).primary == Some(lv.monitors.len() + k),
    decreases entries.len(),
{
    let stepped = lv.with_monitor(entries[0].0, entries[0].1);
    if k == 0 {
        assert(forall|i: int|
            0 <= i < entries.drop_first().len() ==> !(#[trigger] entries.drop_first()[i]).0);
        lemma_no_primary_flag_keeps_primary(stepped, entries.drop_first());
    } else {
        lemma_last_primary_flag_wins(stepped, entries.drop_first(), k - 1);
    }
}

/// Appending preserves the bounds invariant on the recorded primary: a
/// registry built only from [`MonitorList::empty`] and
/// [`MonitorList::add_monitor`] always has its primary, when set, within
/// bounds.
pub proof fn lemma_with_monitor_preserves_primary_in_bounds(
    lv: MonitorListV,
    is_primary: bool,
    monitor: MonitorDataV,
)
    requires
        lv.primary_in_bounds(),
    ensures
        lv.with_monitor(is_primary, monitor).primary_in_bounds(),
{
}

/// Iterating over one registry twice yields identical sequences of views:
/// any two sequences that satisfy the contract of [`MonitorList::iter`]
/// against the same snapshot are equal, one view per descriptor, bound to
/// ascending indices.
pub proof fn lemma_iter_repeatable(
    lv: MonitorListV,
    first: Seq<MonitorRefV>,
    second: Seq<MonitorRefV>,
)
    requires
        first.len() == lv.monitors.len(),
        forall|i: int| 0 <= i < first.len() ==> first[i] == (MonitorRefV { list: lv, index: i }),
        second.len() == lv.monitors.len(),
        forall|i: int| 0 <= i < second.len() ==> second[i] == (MonitorRefV { list: lv, index: i }),
    ensures
        first == second,
{
    assert(first =~= second);
}

/// Provides you with information about all available monitors.
///
/// A value of this type is one frozen enumeration snapshot: it does not
/// observe later hardware changes. Fresh data requires building a new
/// registry, not updating this one.
#[derive(Debug)]
pub struct MonitorList {
    monitors: Vec<MonitorData>,
    primary: Option<MonitorIndex>,
}

impl View for MonitorList {
    type V = MonitorListV;

    closed spec fn view(&self) -> MonitorListV {
        MonitorListV {
            monitors: self.monitors@.map_values(|m: MonitorData| m@),
            primary: match self.primary {
                Some(index) => Some(index.0 as int),
                None => None,
            },
        }
    }
}

/// Mathematical model of a per-monitor view: the snapshot it was obtained
/// from, and the index it is bound to.
#[verifier::ext_equal]
pub ghost struct MonitorRefV {
    pub list: MonitorListV,
    pub index: int,
}

impl MonitorRefV {
    /// The descriptor this view is bound to.
    pub open spec fn data(self) -> MonitorDataV {
        self.list.monitors[self.index]
    }
}

/// A reference to a monitor in a monitor list.
///
/// Allows you to access all important information from said monitor as
/// well as its index. A view is obtained only through registry operations,
/// never constructed directly, so its data is always consistent with the
/// exact snapshot it came from.
pub struct MonitorRef<'a> {
    list: &'a MonitorList,
    index: MonitorIndex,
}

impl<'a> View for MonitorRef<'a> {
    type V = MonitorRefV;

    closed spec fn view(&self) -> MonitorRefV {
        MonitorRefV { list: (*self.list)@, index: self.index.0 as int }
    }
}

impl<'a> MonitorRef<'a> {
    #[verifier::type_invariant]
    spec fn in_bounds(self) -> bool {
        self.index.0 < self.list.monitors@.len()
    }

    fn monitor(&self) -> (r: &'a MonitorData)
        ensures
            r@ == self@.data(),
    {
        proof {
            use_type_invariant(&*self);
        }
        &self.list.monitors[self.index.0]
    }

    /// Returns the size of the monitor in logical pixels by applying the
    /// scale factor of the monitor to its physical size.
    ///
    /// This ignores any scale factor set for a window.
    pub fn size(&self) -> (r: LogicalSize)
        ensures
            r == self@.data().logical_size(),
    {
        self.monitor().size()
    }

    /// Returns the index of the monitor. You can use this when creating a
    /// new window.
    pub fn index(&self) -> (r: MonitorIndex)
        ensures
            r.0 == self@.index,
    {
        self.index
    }

    /// Returns the scale factor of the monitor.
    pub fn scale_factor(&self) -> (r: ScaleFactor)
        ensures
            r == self@.data().scale_factor,
    {
        self.monitor().scale_factor()
    }

    /// Returns the name of the monitor.
    pub fn name(&self) -> (r: Option<&'a str>)
        ensures
            match r {
                Some(name) => self@.data().name == Some(name@),
                None => self@.data().name is None,
            },
    {
        self.monitor().name()
    }

    /// Returns the refresh rate of the monitor in millihertz.
    pub fn refresh_rate_millihertz(&self) -> (r: Option<u32>)
        ensures
            r == self@.data().refresh_rate_millihertz,
    {
        self.monitor().refresh_rate_millihertz()
    }

    /// Returns whether the monitor is the primary monitor.
    pub fn is_primary(&self) -> (r: bool)
        ensures
            r == (self@.list.primary == Some(self@.index)),
    {
        match self.list.primary {
            Some(primary) => primary.0 == self.index.0,
            None => false,
        }
    }
}

impl MonitorList {
    /// Creates a new empty monitor list.
    pub fn empty() -> (r: Self)
        ensures
            r@.monitors.len() == 0,
            r@.primary is None,
    {
        Self { monitors: Vec::new(), primary: None }
    }

    /// Adds a new monitor to the list, at the next index; when
    /// `is_primary` is set, that index becomes the primary, overwriting
    /// any previously recorded one.
    pub fn add_monitor(&mut self, is_primary: bool, monitor: MonitorData)
        ensures
            final(self)@ == old(self)@.with_monitor(is_primary, monitor@),
    {
        if is_primary {
            self.primary = Some(MonitorIndex(self.monitors.len()));
        }
        self.monitors.push(monitor);
        proof {
            assert(self@ =~= old(self)@.with_monitor(is_primary, monitor@));
        }
    }

    /// Returns the monitor at the given index, if available.
    pub fn get<'a>(&'a self, index: MonitorIndex) -> (r: Option<MonitorRef<'a>>)
        ensures
            match r {
                Some(monitor) => index.0 < self@.monitors.len() && monitor@ == (MonitorRefV {
                    list: self@,
                    index: index.0 as int,
                }),
                None => index.0 >= self@.monitors.len(),
            },
    {
        if index.0 >= self.monitors.len() {
            None
        } else {
            Some(MonitorRef { list: self, index })
        }
    }

    /// Iterates over all monitors: one view per descriptor, in append
    /// order. Calling this again on the same registry yields an identical
    /// sequence, as [`lemma_iter_repeatable`] states.
    pub fn iter<'a>(&'a self) -> (r: Vec<MonitorRef<'a>>)
        ensures
            r@.len() == self@.monitors.len(),
            forall|i: int|
                0 <= i < r@.len() ==> (#[trigger] r@[i])@ == (MonitorRefV {
                    list: self@,
                    index: i,
                }),
    {
        let mut views: Vec<MonitorRef<'a>> = Vec::new();
        let mut index: usize = 0;
        while index < self.monitors.len()
            invariant
                index <= self.monitors.len(),
                views@.len() == index,
                forall|i: int|
                    0 <= i < views@.len() ==> (#[trigger] views@[i])@ == (MonitorRefV {
                        list: self@,
                        index: i,
                    }),
            decreases self.monitors.len() - index,
        {
            views.push(MonitorRef { list: self, index: MonitorIndex(index) });
            index += 1;
        }
        views
    }

    /// Returns the primary monitor, if available: `Some` exactly when a
    /// primary is recorded and falls within this registry's bounds.
    pub fn primary<'a>(&'a self) -> (r: Option<MonitorRef<'a>>)
        ensures
            match r {
                Some(monitor) => monitor@.list == self@ && self@.primary == Some(monitor@.index)
                    && 0 <= monitor@.index < self@.monitors.len(),
                None => match self@.primary {
                    Some(i) => i >= self@.monitors.len(),
                    None => true,
                },
            },
    {
        match self.primary {
            Some(index) => self.get(index),
            None => None,
        }
    }

    /// Returns the primary monitor, or the first monitor if no primary is
    /// available. On an empty registry no valid monitor exists, so this
    /// reports absence.
    pub fn primary_or_first<'a>(&'a self) -> (r: Option<MonitorRef<'a>>)
        ensures
            match r {
                Some(monitor) => self@.monitors.len() > 0 && monitor@ == (MonitorRefV {
                    list: self@,
                    index: match self@.primary {
                        Some(i) => if 0 <= i < self@.monitors.len() {
                            i
                        } else {
                            0
                        },
                        None => 0,
                    },
                }),
                None => self@.monitors.len() == 0,
            },
    {
        match self.primary() {
            Some(monitor) => Some(monitor),
            None => self.get(MonitorIndex(0)),
        }
    }
}

impl Clone for MonitorList {
    /// Registries are cheap owned values: duplicating one yields an
    /// independent snapshot with the same model.
    fn clone(&self) -> (r: Self)
        ensures
            r@ == self@,
    {
        let mut monitors: Vec<MonitorData> = Vec::new();
        let mut index: usize = 0;
        while index < self.monitors.len()
            invariant
                index <= self.monitors.len(),
                monitors@.len() == index,
                forall|i: int|
                    0 <= i < monitors@.len() ==> (#[trigger] monitors@[i])@ == self.monitors@[i]@,
            decreases self.monitors.len() - index,
        {
            monitors.push(self.monitors[index].clone());
            index += 1;
        }
        let r = MonitorList { monitors, primary: self.primary };
        proof {
            assert(r@ =~= self@);
        }
        r
    }
}

} // verus!

