use vstd::prelude::*;
use crate::config::device_id_text;
use crate::text::{contains_text, lower_of, lowercase, occurs_in, same_text};

verus! {

/// An audio backend as offered to the user.
#[derive(Debug, Clone)]
pub struct AudioHostInfo {
    pub id: String,
    pub name: String,
    pub is_default: bool,
}

/// An output device and what it can do.
#[derive(Debug, Clone)]
pub struct AudioDeviceInfo {
    pub id: String,
    pub name: String,
    pub host_id: String,
    pub is_default: bool,
    pub is_usb: bool,
    pub sample_rates: Vec<u32>,
    pub min_buffer_size: u32,
    pub max_buffer_size: u32,
    pub channels: u16,
}

/// Smallest and largest buffer size a backend accepts, in frames.
#[derive(Debug, Clone, Copy, PartialEq, Eq, Structural)]
pub struct BufferRange {
    pub min: u32,
    pub max: u32,
}

/// One supported output configuration range, as a backend reports it.
#[derive(Debug, Clone, Copy, PartialEq, Eq, Structural)]
pub struct ConfigRange {
    pub min_sample_rate: u32,
    pub max_sample_rate: u32,
    pub channels: u16,
    /// Smallest and largest buffer size, when the backend reports them.
    pub buffer_size: Option<BufferRange>,
}

/// The label shown for a backend.
pub open spec fn host_label(id: Seq<char>) -> Seq<char> {
    if id == "WASAPI"@ {
        "Windows Audio (WASAPI)"@
    } else if id == "ASIO"@ {
        "ASIO (Low Latency)"@
    } else if id == "CoreAudio"@ {
        "macOS Core Audio"@
    } else if id == "ALSA"@ {
        "Linux ALSA"@
    } else if id == "PulseAudio"@ {
        "Linux PulseAudio"@
    } else if id == "JACK"@ {
        "JACK Audio"@
    } else {
        id
    }
}

/// The label shown for a backend.
pub fn host_display_name(id: &str) -> (r: String)
    ensures
        r@ == host_label(id@),
{
    if same_text(id, "WASAPI") {
        "Windows Audio (WASAPI)".to_owned()
    } else if same_text(id, "ASIO") {
        "ASIO (Low Latency)".to_owned()
    } else if same_text(id, "CoreAudio") {
        "macOS Core Audio".to_owned()
    } else if same_text(id, "ALSA") {
        "Linux ALSA".to_owned()
    } else if same_text(id, "PulseAudio") {
        "Linux PulseAudio".to_owned()
    } else if same_text(id, "JACK") {
        "JACK Audio".to_owned()
    } else {
        id.to_owned()
    }
}

/// Describes each backend, in the order given, marking the default one.
pub fn list_hosts(ids: &Vec<String>, default_id: &str) -> (r: Vec<AudioHostInfo>)
    ensures
        r@.len() == ids@.len(),
        forall|i: int| 0 <= i < ids@.len() ==> {
            &&& (#[trigger] r@[i]).id@ == ids@[i]@
            &&& r@[i].name@ == host_label(ids@[i]@)
            &&& r@[i].is_default == (ids@[i]@ == default_id@)
        },
{
    let mut r: Vec<AudioHostInfo> = Vec::new();
    let mut i: usize = 0;
    while i < ids.len()
        invariant
            i <= ids@.len(),
            r@.len() == i,
            forall|j: int| 0 <= j < i ==> {
                &&& (#[trigger] r@[j]).id@ == ids@[j]@
                &&& r@[j].name@ == host_label(ids@[j]@)
                &&& r@[j].is_default == (ids@[j]@ == default_id@)
            },
        decreases ids@.len() - i,
    {
        let id = ids[i].as_str();
        r.push(AudioHostInfo { id: id.to_owned(), name: host_display_name(id), is_default: same_text(id, default_id) });
        i = i + 1;
    }
    r
}

/// The candidate sample rates, ascending.
pub open spec fn candidate_rates() -> Seq<u32> {
    seq![44100u32, 48000, 88200, 96000, 176400, 192000]
}

/// Some range in `ranges` admits `rate`.
pub open spec fn rate_covered(ranges: Seq<ConfigRange>, rate: u32) -> bool {
    exists|i: int| 0 <= i < ranges.len() && #[trigger] ranges[i].min_sample_rate <= rate
        && rate <= ranges[i].max_sample_rate
}

/// The first `k` candidate rates that some range admits, in order.
pub open spec fn covered_prefix(ranges: Seq<ConfigRange>, k: nat) -> Seq<u32>
    decreases k,
{
    if k == 0 {
        seq![]
    } else {
        let prev = covered_prefix(ranges, (k - 1) as nat);
        let c = candidate_rates()[k - 1];
        if rate_covered(ranges, c) { prev.push(c) } else { prev }
    }
}

/// The candidate rates that some range admits, ascending and distinct.
pub open spec fn supported_rates(ranges: Seq<ConfigRange>) -> Seq<u32> {
    covered_prefix(ranges, 6)
}

/// Smallest buffer size that any range reports, if any does.
pub open spec fn reported_min_buffer(ranges: Seq<ConfigRange>) -> Option<u32>
    decreases ranges.len(),
{
    if ranges.len() == 0 {
        None
    } else {
        let prev = reported_min_buffer(ranges.drop_last());
        match ranges.last().buffer_size {
            Some(b) => match prev {
                Some(p) => Some(if b.min < p { b.min } else { p }),
                None => Some(b.min),
            },
            None => prev,
        }
    }
}

/// Largest buffer size that any range reports, if any does.
pub open spec fn reported_max_buffer(ranges: Seq<ConfigRange>) -> Option<u32>
    decreases ranges.len(),
{
    if ranges.len() == 0 {
        None
    } else {
        let prev = reported_max_buffer(ranges.drop_last());
        match ranges.last().buffer_size {
            Some(b) => match prev {
                Some(p) => Some(if b.max > p { b.max } else { p }),
                None => Some(b.max),
            },
            None => prev,
        }
    }
}

/// Largest channel count over the ranges, if there are any.
pub open spec fn reported_channels(ranges: Seq<ConfigRange>) -> Option<u16>
    decreases ranges.len(),
{
    if ranges.len() == 0 {
        None
    } else {
        let c = ranges.last().channels;
        match reported_channels(ranges.drop_last()) {
            Some(p) => Some(if c > p { c } else { p }),
            None => Some(c),
        }
    }
}

/// The smallest reported buffer size; 64 when no range reports one.
pub open spec fn min_buffer_of(ranges: Seq<ConfigRange>) -> u32 {
    match reported_min_buffer(ranges) {
        Some(m) => m,
        None => 64,
    }
}

/// The largest reported buffer size; 4096 when no range reports one.
pub open spec fn max_buffer_of(ranges: Seq<ConfigRange>) -> u32 {
    match reported_max_buffer(ranges) {
        Some(m) => m,
        None => 4096,
    }
}

/// The largest channel count over the ranges; 2 when there are none.
pub open spec fn max_channels_of(ranges: Seq<ConfigRange>) -> u16 {
    match reported_channels(ranges) {
        Some(c) => c,
        None => 2,
    }
}

fn candidate_rate(k: usize) -> (r: u32)
    requires
        k < 6,
    ensures
        r == candidate_rates()[k as int],
{
    if k == 0 {
        44100
    } else if k == 1 {
        48000
    } else if k == 2 {
        88200
    } else if k == 3 {
        96000
    } else if k == 4 {
        176400
    } else {
        192000
    }
}

fn is_covered(ranges: &Vec<ConfigRange>, rate: u32) -> (r: bool)
    ensures
        r == rate_covered(ranges@, rate),
{
    let mut i: usize = 0;
    while i < ranges.len()
        invariant
            i <= ranges@.len(),
            forall|j: int| 0 <= j < i ==> !(#[trigger] ranges@[j].min_sample_rate <= rate
                && rate <= ranges@[j].max_sample_rate),
        decreases ranges@.len() - i,
    {
        if ranges[i].min_sample_rate <= rate && rate <= ranges[i].max_sample_rate {
            return true;
        }
        i = i + 1;
    }
    false
}

/// The candidate sample rates that some range admits, ascending.
pub fn sample_rates_of(ranges: &Vec<ConfigRange>) -> (r: Vec<u32>)
    ensures
        r@ == supported_rates(ranges@),
{
    let mut r: Vec<u32> = Vec::new();
    let mut k: usize = 0;
    while k < 6
        invariant
            k <= 6,
            r@ == covered_prefix(ranges@, k as nat),
        decreases 6 - k,
    {
        let c = candidate_rate(k);
        if is_covered(ranges, c) {
            r.push(c);
        }
        k = k + 1;
    }
    r
}

/// Buffer-size bounds and channel count over all ranges: the smallest
/// and largest reported buffer sizes (`[64, 4096]` when none are reported)
/// and the largest channel count (two when there are no ranges).
pub fn capabilities_of(ranges: &Vec<ConfigRange>) -> (r: (u32, u32, u16))
    ensures
        r.0 == min_buffer_of(ranges@),
        r.1 == max_buffer_of(ranges@),
        r.2 == max_channels_of(ranges@),
{
    let mut lo: Option<u32> = None;
    let mut hi: Option<u32> = None;
    let mut ch: Option<u16> = None;
    let mut i: usize = 0;
    while i < ranges.len()
        invariant
            i <= ranges@.len(),
            lo == reported_min_buffer(ranges@.subrange(0, i as int)),
            hi == reported_max_buffer(ranges@.subrange(0, i as int)),
            ch == reported_channels(ranges@.subrange(0, i as int)),
        decreases ranges@.len() - i,
    {
        let c = ranges[i];
        proof {
            let s = ranges@.subrange(0, i + 1);
            assert(s.drop_last() =~= ranges@.subrange(0, i as int));
            assert(s.last() == c);
        }
        ch = match ch {
            Some(p) => Some(if c.channels > p { c.channels } else { p }),
            None => Some(c.channels),
        };
        match c.buffer_size {
            Some(b) => {
                lo = match lo {
                    Some(p) => Some(if b.min < p { b.min } else { p }),
                    None => Some(b.min),
                };
                hi = match hi {
                    Some(p) => Some(if b.max > p { b.max } else { p }),
                    None => Some(b.max),
                };
            },
            None => {},
        }
        i = i + 1;
    }
    assert(ranges@.subrange(0, ranges@.len() as int) =~= ranges@);
    let min = match lo {
        Some(m) => m,
        None => 64,
    };
    let max = match hi {
        Some(m) => m,
        None => 4096,
    };
    let channels = match ch {
        Some(c) => c,
        None => 2,
    };
    (min, max, channels)
}

/// The brand tokens that mark an external interface.
pub open spec fn brand_token(k: int) -> Seq<char> {
    if k == 0 {
        "usb"@
    } else if k == 1 {
        "focusrite"@
    } else if k == 2 {
        "scarlett"@
    } else if k == 3 {
        "steinberg"@
    } else if k == 4 {
        "presonus"@
    } else if k == 5 {
        "motu"@
    } else if k == 6 {
        "universal audio"@
    } else if k == 7 {
        "rme"@
    } else if k == 8 {
        "apogee"@
    } else if k == 9 {
        "audient"@
    } else if k == 10 {
        "ssl"@
    } else if k == 11 {
        "behringer"@
    } else if k == 12 {
        "arturia"@
    } else {
        "native instruments"@
    }
}

/// A lower-case device name that holds one of the brand tokens.
pub open spec fn names_external(lower: Seq<char>) -> bool {
    exists|k: int| 0 <= k < 14 && #[trigger] occurs_in(lower, brand_token(k))
}

fn brand_token_text(k: usize) -> (r: &'static str)
    requires
        k < 14,
    ensures
        r@ == brand_token(k as int),
{
    if k == 0 {
        "usb"
    } else if k == 1 {
        "focusrite"
    } else if k == 2 {
        "scarlett"
    } else if k == 3 {
        "steinberg"
    } else if k == 4 {
        "presonus"
    } else if k == 5 {
        "motu"
    } else if k == 6 {
        "universal audio"
    } else if k == 7 {
        "rme"
    } else if k == 8 {
        "apogee"
    } else if k == 9 {
        "audient"
    } else if k == 10 {
        "ssl"
    } else if k == 11 {
        "behringer"
    } else if k == 12 {
        "arturia"
    } else {
        "native instruments"
    }
}

/// Whether a name that is already lower case holds a brand token.
pub fn is_external_lowercase(lower: &str) -> (r: bool)
    ensures
        r == names_external(lower@),
{
    let mut k: usize = 0;
    while k < 14
        invariant
            k <= 14,
            forall|j: int| 0 <= j < k ==> !#[trigger] occurs_in(lower@, brand_token(j)),
        decreases 14 - k,
    {
        if contains_text(lower, brand_token_text(k)) {
            return true;
        }
        k = k + 1;
    }
    false
}

/// Best-effort guess that a device is an external class-compliant
/// interface, from brand tokens in its name in any letter case.
pub fn is_external_device(name: &str) -> (r: bool)
    ensures
        r == names_external(lower_of(name@)),
{
    let lower = lowercase(name);
    is_external_lowercase(lower.as_str())
}

/// Describes one output device of backend `host_id` from its name, the
/// backend's default device name and the ranges it reports.
pub fn describe_device(host_id: &str, name: &str, default_name: &Option<String>, ranges: &Vec<ConfigRange>) -> (r: AudioDeviceInfo)
    ensures
        r.id@ == device_id_text(host_id@, name@),
        r.name@ == name@,
        r.host_id@ == host_id@,
        r.is_default == (default_name is Some && default_name->0@ == name@),
        r.is_usb == names_external(lower_of(name@)),
        r.sample_rates@ == supported_rates(ranges@),
        r.min_buffer_size == min_buffer_of(ranges@),
        r.max_buffer_size == max_buffer_of(ranges@),
        r.channels == max_channels_of(ranges@),
{
    let (lo, hi, ch) = capabilities_of(ranges);
    let mut id = host_id.to_owned();
    id.append(":");
    id.append(name);
    proof {
        reveal_strlit(":");
    }
    let is_default = match default_name {
        Some(d) => same_text(d.as_str(), name),
        None => false,
    };
    AudioDeviceInfo {
        id,
        name: name.to_owned(),
        host_id: host_id.to_owned(),
        is_default,
        is_usb: is_external_device(name),
        sample_rates: sample_rates_of(ranges),
        min_buffer_size: lo,
        max_buffer_size: hi,
        channels: ch,
    }
}

} // verus!
