//! The taskbar windows: which windows of the taskbar classes belong to
//! Explorer, whether any of them is visible, and how they are shown or
//! hidden.

use vstd::prelude::*;
use crate::platform::{SW_HIDE, SW_SHOW};
use crate::text::{
    eq_ignore_ascii_case, eq_ignoring_ascii_case, lemma_utf16_lossy_len, spec_utf16_len,
    spec_utf16_lossy, utf16_lossy_prefix,
};

verus! {

/// The window class of a taskbar.
#[derive(Clone, Copy, Debug, PartialEq, Eq, Structural)]
pub enum TrayClass {
    /// The taskbar of the primary monitor; there is one.
    Primary,
    /// The taskbar of another monitor; there may be several.
    Secondary,
}

/// The name of the window class of each kind of taskbar.
pub open spec fn spec_class_name(c: TrayClass) -> Seq<char> {
    match c {
        TrayClass::Primary => "Shell_TrayWnd"@,
        TrayClass::Secondary => "Shell_SecondaryTrayWnd"@,
    }
}

/// Returns the window class name of a taskbar kind.
pub fn class_name(c: TrayClass) -> (name: &'static str)
    ensures
        name@ == spec_class_name(c),
{
    match c {
        TrayClass::Primary => "Shell_TrayWnd",
        TrayClass::Secondary => "Shell_SecondaryTrayWnd",
    }
}

/// A window belongs to Explorer when the name of the module of its process
/// is `explorer.exe` in any ASCII case.
pub open spec fn spec_is_explorer(process_name: Option<Seq<char>>) -> bool {
    match process_name {
        Some(name) => eq_ignoring_ascii_case(name, "explorer.exe"@),
        None => false,
    }
}

/// The class searched after the windows of `c` are exhausted.
pub open spec fn spec_class_after(c: TrayClass) -> Option<TrayClass> {
    match c {
        TrayClass::Primary => Some(TrayClass::Secondary),
        TrayClass::Secondary => None,
    }
}

/// One step of the scan in the class `current` (`None` once it is over):
/// `window` is `Some(is_explorer)` for a window found of that class, `None`
/// when the class has no further window. Returns the class searched next and
/// whether the window is taken. A window is taken when it is Explorer's; the
/// first Explorer window of the primary class ends that class, since there
/// is one primary taskbar.
pub open spec fn spec_scan_step(current: Option<TrayClass>, window: Option<bool>) -> (
    Option<TrayClass>,
    bool,
) {
    match current {
        None => (None, false),
        Some(c) => match window {
            None => (spec_class_after(c), false),
            Some(is_explorer) => if is_explorer && c == TrayClass::Primary {
                (Some(TrayClass::Secondary), true)
            } else {
                (current, is_explorer)
            },
        },
    }
}

/// The number of primary-class windows that a scan from `current` takes over
/// the sequence of steps `steps`.
pub open spec fn spec_primary_taken(current: Option<TrayClass>, steps: Seq<Option<bool>>) -> nat
    decreases steps.len(),
{
    if steps.len() == 0 {
        0
    } else {
        let (next, taken) = spec_scan_step(current, steps[0]);
        (if taken && current == Some(TrayClass::Primary) {
            1nat
        } else {
            0nat
        }) + spec_primary_taken(next, steps.drop_first())
    }
}

/// The scan for Explorer's taskbar windows: it goes through the windows of
/// the primary class, then of the secondary class.
pub struct TaskbarScan {
    current: Option<TrayClass>,
}

impl TaskbarScan {
    /// The class whose windows are being searched; `None` once the scan is over.
    pub closed spec fn spec_current(self) -> Option<TrayClass> {
        self.current
    }

    /// Starts a scan at the primary class.
    pub fn new() -> (s: Self)
        ensures
            s.spec_current() == Some(TrayClass::Primary),
    {
        TaskbarScan { current: Some(TrayClass::Primary) }
    }

    /// Returns the class whose next window is to be found, or `None` once
    /// the scan is over.
    pub fn current_class(&self) -> (c: Option<TrayClass>)
        ensures
            c == self.spec_current(),
    {
        self.current
    }

    /// Takes in a window found in the current class, whose process module
    /// is named `process_name` (`None` where it could not be read), and
    /// tells whether the window is one of Explorer's taskbars.
    pub fn on_window(&mut self, process_name: &Option<String>) -> (taken: bool)
        requires
            old(self).spec_current() is Some,
        ensures
            taken == spec_is_explorer(
                match process_name {
                    Some(n) => Some(n@),
                    None => None,
                },
            ),
            (final(self).spec_current(), taken) == spec_scan_step(
                old(self).spec_current(),
                Some(taken),
            ),
            !taken ==> final(self).spec_current() == old(self).spec_current(),
            taken ==> final(self).spec_current() == Some(TrayClass::Secondary),
    {
        let is_explorer = match process_name {
            Some(name) => eq_ignore_ascii_case(name.as_str(), "explorer.exe"),
            None => false,
        };
        if is_explorer {
            match self.current {
                Some(TrayClass::Primary) => {
                    self.current = Some(TrayClass::Secondary);
                },
                _ => {},
            }
        }
        is_explorer
    }

    /// Takes in that the current class has no further window.
    pub fn on_class_exhausted(&mut self)
        ensures
            final(self).spec_current() == spec_scan_step(old(self).spec_current(), None).0,
            old(self).spec_current() == Some(TrayClass::Primary) ==> final(self).spec_current()
                == Some(TrayClass::Secondary),
            old(self).spec_current() != Some(TrayClass::Primary) ==> final(self).spec_current()
                is None,
    {
        self.current = match self.current {
            Some(TrayClass::Primary) => Some(TrayClass::Secondary),
            _ => None,
        };
    }
}

/// A scan takes at most one window of the primary class, and none once it
/// has left that class.
pub proof fn lemma_one_primary_taskbar(current: Option<TrayClass>, steps: Seq<Option<bool>>)
    ensures
        spec_primary_taken(current, steps) <= 1,
        current != Some(TrayClass::Primary) ==> spec_primary_taken(current, steps) == 0,
    decreases steps.len(),
{
    if steps.len() > 0 {
        let (next, taken) = spec_scan_step(current, steps[0]);
        lemma_one_primary_taskbar(next, steps.drop_first());
        if current == Some(TrayClass::Primary) && taken {
            assert(next == Some(TrayClass::Secondary));
        }
    }
}

/// Runs the scan from `current` over `steps`: the class searched afterwards,
/// and for each step whether it took a window.
pub open spec fn spec_scan_run(current: Option<TrayClass>, steps: Seq<Option<bool>>) -> (
    Option<TrayClass>,
    Seq<bool>,
)
    decreases steps.len(),
{
    if steps.len() == 0 {
        (current, seq![])
    } else {
        let (next, taken) = spec_scan_step(current, steps[0]);
        let (end, rest) = spec_scan_run(next, steps.drop_first());
        (end, seq![taken] + rest)
    }
}

/// A window that is not Explorer's is skipped and leaves the class being
/// searched as it was; an Explorer window is taken, and afterwards the scan
/// is in the secondary class (the primary class holds one taskbar).
pub proof fn lemma_window_steps(c: TrayClass)
    ensures
        spec_scan_step(Some(c), Some(false)) == (Some(c), false),
        spec_scan_step(Some(c), Some(true)) == (Some(TrayClass::Secondary), true),
        spec_scan_step(Some(c), None).0 == (if c == TrayClass::Primary {
            Some(TrayClass::Secondary)
        } else {
            None::<TrayClass>
        }),
{
}

/// Over any run of windows of the secondary class, the scan stays in that
/// class and takes exactly the Explorer windows among them; over a run of
/// non-Explorer windows of the primary class, it stays there and takes none.
pub proof fn lemma_secondary_windows_all_found(flags: Seq<bool>)
    ensures
        spec_scan_run(Some(TrayClass::Secondary), flags.map_values(|b: bool| Some(b))) == (
            Some(TrayClass::Secondary),
            flags,
        ),
        (forall|i: int| 0 <= i < flags.len() ==> !#[trigger] flags[i]) ==> spec_scan_run(
            Some(TrayClass::Primary),
            flags.map_values(|b: bool| Some(b)),
        ) == (Some(TrayClass::Primary), flags),
    decreases flags.len(),
{
    let steps = flags.map_values(|b: bool| Some(b));
    if flags.len() > 0 {
        let rest = flags.drop_first();
        lemma_secondary_windows_all_found(rest);
        assert(steps.drop_first() =~= rest.map_values(|b: bool| Some(b)));
        assert(flags =~= seq![flags[0]] + rest);
    } else {
        assert(flags =~= Seq::<bool>::empty());
    }
}

/// A scan never goes back to a class it has left, and every step on a
/// class that has no further window moves it on.
pub proof fn lemma_scan_moves_forward(current: Option<TrayClass>, window: Option<bool>)
    ensures
        current == Some(TrayClass::Secondary) ==> spec_scan_step(current, window).0 != Some(
            TrayClass::Primary,
        ),
        current is None ==> spec_scan_step(current, window) == (None::<TrayClass>, false),
        window is None && current is Some ==> spec_scan_step(current, window).0 != current,
{
}

/// Tells whether any of the taskbars is visible, given the visibility of
/// each.
pub fn any_visible(visible: &[bool]) -> (r: bool)
    ensures
        r == exists|i: int| 0 <= i < visible@.len() && visible@[i],
{
    let mut i: usize = 0;
    while i < visible.len()
        invariant
            i <= visible@.len(),
            forall|j: int| 0 <= j < i ==> !visible@[j],
        decreases visible@.len() - i,
    {
        if visible[i] {
            return true;
        }
        i = i + 1;
    }
    false
}

/// The `ShowWindow` command that shows (`SW_SHOW`) or hides (`SW_HIDE`) every
/// taskbar.
pub fn show_command(show: bool) -> (cmd: i32)
    ensures
        cmd == (if show {
            SW_SHOW
        } else {
            SW_HIDE
        }),
{
    if show {
        SW_SHOW
    } else {
        SW_HIDE
    }
}

/// The name of a process module from the buffer that `GetModuleBaseNameW`
/// filled: `len` is the number of UTF-16 units it wrote, and no name was
/// read when it is zero. The name takes as many UTF-16 units as were read.
pub fn process_name_from_buffer(buffer: &[u16], len: u32) -> (name: Option<String>)
    requires
        len <= buffer@.len(),
    ensures
        len == 0 ==> name is None,
        len > 0 ==> (name matches Some(n) && n@ == spec_utf16_lossy(buffer@.take(len as int))),
        name matches Some(n) ==> spec_utf16_len(n@) == len,
{
    proof {
        lemma_utf16_lossy_len(buffer@.take(len as int));
    }
    if len > 0 {
        Some(utf16_lossy_prefix(buffer, len as usize))
    } else {
        None
    }
}

} // verus!
