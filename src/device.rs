//! Which audio input device to open, given the devices on offer, the name
//! saved in the settings and the system's default device.

use vstd::prelude::*;

verus! {

/// Where the chosen input device comes from.
#[derive(Clone, Copy, Debug, PartialEq, Eq, Structural)]
pub enum DeviceSource {
    /// The listed device at this position.
    Listed(usize),
    /// The system's default input device.
    SystemDefault,
    /// No device can be opened.
    Unavailable,
}

/// The outcome of choosing an input device.
pub struct DeviceChoice {
    pub source: DeviceSource,
    /// The device name to keep in the settings.
    pub name: String,
    /// The position in the list that the settings screen highlights, where
    /// the kept name is listed.
    pub list_index: Option<usize>,
}

/// Whether `i` is the first position of `name` in `names`.
pub open spec fn is_first_named(names: Seq<String>, name: Seq<char>, i: int) -> bool {
    &&& 0 <= i < names.len()
    &&& names[i]@ == name
    &&& forall|j: int| 0 <= j < i ==> (#[trigger] names[j])@ != name
}

/// Whether `name` is nowhere in `names`.
pub open spec fn is_unlisted(names: Seq<String>, name: Seq<char>) -> bool {
    forall|j: int| 0 <= j < names.len() ==> (#[trigger] names[j])@ != name
}

/// Finds the first position of `name` in `names`.
pub fn find_name(names: &Vec<String>, name: &String) -> (r: Option<usize>)
    ensures
        r matches Some(i) ==> is_first_named(names@, name@, i as int),
        r is None ==> is_unlisted(names@, name@),
{
    let mut k: usize = 0;
    while k < names.len()
        invariant
            k <= names@.len(),
            forall|j: int| 0 <= j < k ==> (#[trigger] names@[j])@ != name@,
        decreases names@.len() - k,
    {
        if names[k] == *name {
            return Some(k);
        }
        k = k + 1;
    }
    None
}

/// Chooses the input device to open.
///
/// With no saved name the system default is taken, if there is one, and its
/// name is kept. With a saved name the first listed device of that name is
/// taken; where none is listed, the system default is opened but the saved
/// name is kept. The highlighted position is that of the kept name.
pub fn choose_input_device(
    listed: &Vec<String>,
    saved_name: &String,
    default_name: Option<&String>,
) -> (r: DeviceChoice)
    ensures
        saved_name@.len() == 0 ==> match default_name {
            Some(d) => {
                &&& r.source == DeviceSource::SystemDefault
                &&& r.name@ == d@
                &&& r.list_index matches Some(i) ==> is_first_named(listed@, d@, i as int)
                &&& r.list_index is None ==> is_unlisted(listed@, d@)
            },
            None => r.source == DeviceSource::Unavailable && r.name@ == saved_name@
                && r.list_index is None,
        },
        saved_name@.len() > 0 ==> {
            &&& r.name@ == saved_name@
            &&& r.list_index matches Some(i) ==> {
                &&& is_first_named(listed@, saved_name@, i as int)
                &&& r.source == DeviceSource::Listed(i)
            }
            &&& r.list_index is None ==> {
                &&& is_unlisted(listed@, saved_name@)
                &&& r.source == if default_name is Some {
                    DeviceSource::SystemDefault
                } else {
                    DeviceSource::Unavailable
                }
            }
        },
{
    if saved_name.as_str().unicode_len() == 0 {
        match default_name {
            Some(d) => {
                let index = find_name(listed, d);
                DeviceChoice { source: DeviceSource::SystemDefault, name: d.clone(), list_index: index }
            },
            None => DeviceChoice {
                source: DeviceSource::Unavailable,
                name: saved_name.clone(),
                list_index: None,
            },
        }
    } else {
        let index = find_name(listed, saved_name);
        let source = match index {
            Some(i) => DeviceSource::Listed(i),
            None => match default_name {
                Some(_) => DeviceSource::SystemDefault,
                None => DeviceSource::Unavailable,
            },
        };
        DeviceChoice { source, name: saved_name.clone(), list_index: index }
    }
}

} // verus!
