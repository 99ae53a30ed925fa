use crate::volume::Fraction;
use vstd::prelude::*;
use vstd::string::StringExecFns;

verus! {

/// How coarsely the tray icon shows the current volume.
#[derive(Clone, Copy, Debug, PartialEq, Eq)]
pub enum VolumeIconLevel {
    Muted,
    Low,
    Medium,
    High,
}

/// The icon level for a volume fraction, keyed on whole percents: muted at
/// zero, low below a third, medium below two thirds, high from two thirds
/// up.
pub open spec fn spec_icon_level(f: Fraction) -> VolumeIconLevel {
    let p = (f.num as int * 100) / (f.den as int);
    if p == 0 {
        VolumeIconLevel::Muted
    } else if p < 33 {
        VolumeIconLevel::Low
    } else if p < 66 {
        VolumeIconLevel::Medium
    } else {
        VolumeIconLevel::High
    }
}

/// Classifies a volume fraction for the tray icon.
pub fn volume_icon_level(f: Fraction) -> (r: VolumeIconLevel)
    requires
        f.wf(),
    ensures
        r == spec_icon_level(f),
{
    let p: u64 = ((f.num as u64) * 100) / (f.den as u64);
    if p == 0 {
        VolumeIconLevel::Muted
    } else if p < 33 {
        VolumeIconLevel::Low
    } else if p < 66 {
        VolumeIconLevel::Medium
    } else {
        VolumeIconLevel::High
    }
}

/// Wraps a label text in the panel's markup: white foreground, the panel's
/// font, nothing else.
pub fn format_panel_text(text: &str) -> (r: String)
    ensures
        r@ == "<span foreground=\"#FFFFFF\" font_desc=\"Ubuntu Regular 11.0\">"@ + text@
            + "</span>"@,
{
    let mut s = String::from_str("<span foreground=\"#FFFFFF\" font_desc=\"Ubuntu Regular 11.0\">");
    s.append(text);
    s.append("</span>");
    s
}

} // verus!
