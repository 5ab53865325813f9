//! Audio devices as the settings page lists them.
use vstd::prelude::*;
use crate::text::{is_blank_seq, str_eq, trim, trim_seq};

verus! {

/// A device name, and whether it is the system default.
#[derive(Debug)]
pub struct AudioDeviceSummary {
    pub name: String,
    pub is_default: bool,
}

/// The input and output devices offered for capture and playback.
#[derive(Debug)]
pub struct AudioDevicesResult {
    pub input_devices: Vec<AudioDeviceSummary>,
    pub output_devices: Vec<AudioDeviceSummary>,
}

pub open spec fn is_default_name(name: Seq<char>, default: Option<String>) -> bool {
    match default {
        Some(d) => d@ == name,
        None => false,
    }
}

/// The devices of a host, in the order it gave their names, each marked as
/// default when its name is the default device's.
pub fn summarize_devices(names: Vec<String>, default: Option<String>) -> (r: Vec<AudioDeviceSummary>)
    ensures
        r@.len() == names@.len(),
        forall|i: int|
            0 <= i < names@.len() ==> (#[trigger] r@[i]).name@ == names@[i]@ && r@[i].is_default
                == is_default_name(names@[i]@, default),
{
    let mut r: Vec<AudioDeviceSummary> = Vec::new();
    let mut i: usize = 0;
    while i < names.len()
        invariant
            i <= names@.len(),
            r@.len() == i,
            forall|j: int|
                0 <= j < i ==> (#[trigger] r@[j]).name@ == names@[j]@ && r@[j].is_default
                    == is_default_name(names@[j]@, default),
        decreases names.len() - i,
    {
        let name = names[i].clone();
        let is_default = match &default {
            Some(d) => str_eq(d.as_str(), name.as_str()),
            None => false,
        };
        r.push(AudioDeviceSummary { name, is_default });
        i += 1;
    }
    r
}

pub open spec fn named(name: Option<String>, configured: Seq<char>) -> bool {
    match name {
        Some(n) => n@ == configured,
        None => false,
    }
}

/// The first device whose name is the configured name, trimmed; none for a
/// blank configured name, in which case the default device is used. A
/// device whose name could not be read is `None` and never matches.
pub fn find_device_by_name(names: &Vec<Option<String>>, configured_name: &str) -> (r: Option<usize>)
    ensures
        is_blank_seq(configured_name@) ==> r is None,
        !is_blank_seq(configured_name@) ==> match r {
            Some(i) => i < names@.len() && named(names@[i as int], trim_seq(configured_name@))
                && forall|j: int| 0 <= j < i ==> !named(#[trigger] names@[j], trim_seq(configured_name@)),
            None => forall|j: int|
                0 <= j < names@.len() ==> !named(#[trigger] names@[j], trim_seq(configured_name@)),
        },
{
    let configured = trim(configured_name);
    if configured.as_str().is_empty() {
        return None;
    }
    let mut i: usize = 0;
    while i < names.len()
        invariant
            i <= names@.len(),
            configured@ == trim_seq(configured_name@),
            !is_blank_seq(configured_name@),
            forall|j: int| 0 <= j < i ==> !named(#[trigger] names@[j], configured@),
        decreases names.len() - i,
    {
        if let Some(n) = &names[i] {
            if str_eq(n.as_str(), configured.as_str()) {
                return Some(i);
            }
        }
        i += 1;
    }
    None
}

} // verus!
