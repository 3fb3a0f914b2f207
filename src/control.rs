use vstd::prelude::*;
use vstd::slice::{slice_subrange, slice_to_vec};

use crate::command::{starts_with_no_case, tag_no_case};
use crate::error::Error;

verus! {

/// How the brightness or the power of one display is driven.
#[derive(Debug, PartialEq, Eq)]
pub enum ControlMethod {
    /// A device file, e.g. /sys/class/drm/card0-eDP-1/dpms.
    SysFS(Vec<u8>),
    /// A display number on the external indexed bus.
    DDCUtil(u8),
    /// An output name of the window manager; used for power only.
    SwayDPMS(Vec<u8>),
}

pub open spec fn sysfs_word() -> Seq<u8> {
    seq![115u8, 121, 115, 102, 115, 58]
}

pub open spec fn ddcutil_word() -> Seq<u8> {
    seq![100u8, 100, 99, 117, 116, 105, 108, 58]
}

pub open spec fn swaydpms_word() -> Seq<u8> {
    seq![115u8, 119, 97, 121, 100, 112, 109, 115, 58]
}

/// The directory under which device files are named.
pub open spec fn drm_root() -> Seq<u8> {
    seq![47u8, 115, 121, 115, 47, 99, 108, 97, 115, 115, 47, 100, 114, 109]
}

pub open spec fn is_digit(c: u8) -> bool {
    48 <= c <= 57
}

/// The first position at or after `i` that does not hold a decimal digit.
pub open spec fn digits_end(s: Seq<u8>, i: int) -> int
    decreases s.len() - i,
{
    if 0 <= i < s.len() && is_digit(s[i]) {
        digits_end(s, i + 1)
    } else {
        i
    }
}

/// The number that a run of decimal digits writes.
pub open spec fn decimal_value(s: Seq<u8>) -> int
    decreases s.len(),
{
    if s.len() == 0 {
        0
    } else {
        decimal_value(s.drop_last()) * 10 + (s.last() - 48)
    }
}

/// `sysfs:` in any case, then the path: all that follows.
pub open spec fn spec_sysfs(s: Seq<u8>) -> Option<Seq<u8>> {
    if starts_with_no_case(s, sysfs_word()) {
        Some(s.subrange(6, s.len() as int))
    } else {
        None
    }
}

/// `swaydpms:` in any case, then the output name: all that follows.
pub open spec fn spec_swaydpms(s: Seq<u8>) -> Option<Seq<u8>> {
    if starts_with_no_case(s, swaydpms_word()) {
        Some(s.subrange(9, s.len() as int))
    } else {
        None
    }
}

/// `ddcutil:` in any case, then a number: one or more digits, and no
/// fractional part, whose value fits in a `u8`. What follows is ignored.
pub open spec fn spec_ddcutil(s: Seq<u8>) -> Option<u8> {
    let e = digits_end(s, 8);
    if !starts_with_no_case(s, ddcutil_word()) || e == 8 {
        None
    } else if e + 1 < s.len() && s[e] == 46 && is_digit(s[e + 1]) {
        None
    } else if decimal_value(s.subrange(8, e)) > 255 {
        None
    } else {
        Some(decimal_value(s.subrange(8, e)) as u8)
    }
}

/// The control method that a configuration value describes: a device file,
/// a bus display number, or an output name, tried in that order.
pub open spec fn spec_control_method(s: Seq<u8>) -> Option<ControlMethodView> {
    if spec_sysfs(s) is Some {
        Some(ControlMethodView::SysFS(spec_sysfs(s)->0))
    } else if spec_ddcutil(s) is Some {
        Some(ControlMethodView::DDCUtil(spec_ddcutil(s)->0))
    } else if spec_swaydpms(s) is Some {
        Some(ControlMethodView::SwayDPMS(spec_swaydpms(s)->0))
    } else {
        None
    }
}

/// A control method as mathematics sees it.
pub enum ControlMethodView {
    SysFS(Seq<u8>),
    DDCUtil(u8),
    SwayDPMS(Seq<u8>),
}

impl View for ControlMethod {
    type V = ControlMethodView;

    open spec fn view(&self) -> ControlMethodView {
        match self {
            ControlMethod::SysFS(p) => ControlMethodView::SysFS(p@),
            ControlMethod::DDCUtil(n) => ControlMethodView::DDCUtil(*n),
            ControlMethod::SwayDPMS(n) => ControlMethodView::SwayDPMS(n@),
        }
    }
}

/// Decodes a device-file control method.
pub fn sysfs(input: &[u8]) -> (r: Option<ControlMethod>)
    ensures
        match spec_sysfs(input@) {
            None => r is None,
            Some(p) => r matches Some(m) && m@ == ControlMethodView::SysFS(p),
        },
{
    let w = vec![115u8, 121, 115, 102, 115, 58];
    assert(w@ =~= sysfs_word());
    if tag_no_case(input, w.as_slice()) {
        Some(ControlMethod::SysFS(slice_to_vec(slice_subrange(input, 6, input.len()))))
    } else {
        None
    }
}

/// Decodes an output-name control method.
pub fn swaydpms(input: &[u8]) -> (r: Option<ControlMethod>)
    ensures
        match spec_swaydpms(input@) {
            None => r is None,
            Some(p) => r matches Some(m) && m@ == ControlMethodView::SwayDPMS(p),
        },
{
    let w = vec![115u8, 119, 97, 121, 100, 112, 109, 115, 58];
    assert(w@ =~= swaydpms_word());
    if tag_no_case(input, w.as_slice()) {
        Some(ControlMethod::SwayDPMS(slice_to_vec(slice_subrange(input, 9, input.len()))))
    } else {
        None
    }
}

/// Decodes a bus-display-number control method.
pub fn ddcutil(input: &[u8]) -> (r: Option<ControlMethod>)
    ensures
        match spec_ddcutil(input@) {
            None => r is None,
            Some(n) => r == Some(ControlMethod::DDCUtil(n)),
        },
{
    let w = vec![100u8, 100, 99, 117, 116, 105, 108, 58];
    assert(w@ =~= ddcutil_word());
    if !tag_no_case(input, w.as_slice()) {
        return None;
    }
    let mut i: usize = 8;
    let mut acc: u64 = 0;
    let mut big = false;
    while i < input.len() && 48 <= input[i] && input[i] <= 57
        invariant
            8 <= i <= input@.len(),
            digits_end(input@, i as int) == digits_end(input@, 8),
            big == (decimal_value(input@.subrange(8, i as int)) > 255),
            !big ==> acc == decimal_value(input@.subrange(8, i as int)),
        decreases input@.len() - i,
    {
        proof {
            let p = input@.subrange(8, i as int + 1);
            assert(p.drop_last() =~= input@.subrange(8, i as int));
            assert(p.last() == input@[i as int]);
        }
        if !big {
            acc = acc * 10 + (input[i] - 48) as u64;
            if acc > 255 {
                big = true;
            }
        }
        i = i + 1;
    }
    if i == 8 || big {
        return None;
    }
    if i < input.len() - 1 && input[i] == 46 && 48 <= input[i + 1] && input[i + 1] <= 57 {
        return None;
    }
    Some(ControlMethod::DDCUtil(acc as u8))
}

/// Decodes a control method from its configuration value.
pub fn parse_control_method(input: &[u8]) -> (r: Result<ControlMethod, Error>)
    ensures
        match spec_control_method(input@) {
            None => r == Err::<ControlMethod, Error>(
                Error::BadConfiguration("Could not parse control method"),
            ),
            Some(m) => r matches Ok(c) && c@ == m,
        },
{
    if let Some(m) = sysfs(input) {
        return Ok(m);
    }
    if let Some(m) = ddcutil(input) {
        return Ok(m);
    }
    if let Some(m) = swaydpms(input) {
        return Ok(m);
    }
    Err(Error::BadConfiguration("Could not parse control method"))
}

/// The device file `/sys/class/drm/<display_name>/<filepath>`.
pub fn sysfs_path(display_name: &[u8], filepath: &[u8]) -> (r: Vec<u8>)
    ensures
        r@ == drm_root() + seq![47u8] + display_name@ + seq![47u8] + filepath@,
{
    let mut r = vec![47u8, 115, 121, 115, 47, 99, 108, 97, 115, 115, 47, 100, 114, 109];
    r.push(47);
    let mut name = slice_to_vec(display_name);
    r.append(&mut name);
    r.push(47);
    let mut file = slice_to_vec(filepath);
    r.append(&mut file);
    assert(r@ =~= drm_root() + seq![47u8] + display_name@ + seq![47u8] + filepath@);
    r
}

impl ControlMethod {
    /// The device file `/sys/class/drm/<display_name>/<filepath>` as a control
    /// method, where `exists` tells that the file is there.
    pub fn new_sysfs(display_name: &[u8], filepath: &[u8], exists: bool) -> (r: Option<Self>)
        ensures
            exists <==> r is Some,
            r matches Some(m) ==> m@ == ControlMethodView::SysFS(
                drm_root() + seq![47u8] + display_name@ + seq![47u8] + filepath@,
            ),
    {
        if exists {
            Some(ControlMethod::SysFS(sysfs_path(display_name, filepath)))
        } else {
            None
        }
    }
}

} // verus!
