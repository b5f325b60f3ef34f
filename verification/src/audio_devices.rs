//! Choice of the microphone and speaker among the devices present.

use vstd::prelude::*;
use vstd::string::*;

use crate::audio::LastUsedAudioDevicesWString;

verus! {

/// The devices present and the ones in use, by name.
#[derive(Debug, Clone)]
pub struct AudioDevices {
    pub mics: Vec<String>,
    pub mic: Option<String>,
    pub speakers: Vec<String>,
    pub speaker: Option<String>,
}

/// Position of the first device named `wanted` among `names`.
pub open spec fn is_first_named(names: Seq<String>, wanted: Seq<char>, i: int) -> bool {
    &&& 0 <= i < names.len()
    &&& names[i]@ == wanted
    &&& forall|j: int| 0 <= j < i ==> (#[trigger] names[j])@ != wanted
}

/// The position of the first device named `wanted`, if any.
pub fn find_device(names: &Vec<String>, wanted: &str) -> (res: Option<usize>)
    ensures
        match res {
            Some(i) => is_first_named(names@, wanted@, i as int),
            None => forall|j: int| 0 <= j < names@.len() ==> (#[trigger] names@[j])@ != wanted@,
        },
{
    let w = String::from_str(wanted);
    let mut i: usize = 0;
    while i < names.len()
        invariant
            w@ == wanted@,
            i <= names@.len(),
            forall|j: int| 0 <= j < i ==> (#[trigger] names@[j])@ != wanted@,
        decreases names@.len() - i,
    {
        if names[i].eq(&w) {
            return Some(i);
        }
        i = i + 1;
    }
    None
}

/// The device to use given the stored name `wanted` and the names of the
/// devices present (`None` when they cannot be listed): the first device
/// with that name; `None` (use the system default) when no name is stored,
/// the devices cannot be listed, or none has that name.
pub fn choose_device(names: &Option<Vec<String>>, wanted: &Option<String>) -> (res: Option<usize>)
    ensures
        match (names, wanted) {
            (Some(list), Some(w)) => match res {
                Some(i) => is_first_named(list@, w@, i as int),
                None => forall|j: int| 0 <= j < list@.len() ==> (#[trigger] list@[j])@ != w@,
            },
            _ => res.is_none(),
        },
{
    match (names, wanted) {
        (Some(list), Some(w)) => find_device(list, w.as_str()),
        _ => None,
    }
}

/// The stored form of the devices in use: stored under id 1, each device by
/// its name (absent when it has none), with the volumes as they are.
pub fn stored_devices(mic: Option<String>, mic_boost: Option<i32>, speaker: Option<String>, speaker_boost: Option<i32>) -> (res: LastUsedAudioDevicesWString)
    ensures
        res.id == Some(1i32),
        res.mic == mic,
        res.mic_boost == mic_boost,
        res.speaker == speaker,
        res.speaker_boost == speaker_boost,
{
    LastUsedAudioDevicesWString { id: Some(1), mic, mic_boost, speaker, speaker_boost }
}

} // verus!
