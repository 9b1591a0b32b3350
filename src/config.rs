use vstd::prelude::*;
use crate::error::EngineError;
use crate::limits::SAMPLE_RATE;

verus! {

/// The sample rates a device can be asked for, ascending.
pub open spec fn is_candidate_rate(r: int) -> bool {
    r == 44100 || r == 48000 || r == 88200 || r == 96000 || r == 176400 || r == 192000
}

/// A power of two in `[32, 8192]`.
pub open spec fn is_valid_buffer_size(n: int) -> bool {
    n == 32 || n == 64 || n == 128 || n == 256 || n == 512 || n == 1024 || n == 2048
        || n == 4096 || n == 8192
}

/// Whether `rate` is one of the candidate sample rates.
pub fn is_supported_rate(rate: u32) -> (r: bool)
    ensures
        r == is_candidate_rate(rate as int),
{
    rate == 44100 || rate == 48000 || rate == 88200 || rate == 96000 || rate == 176400
        || rate == 192000
}

/// Whether `size` is a power of two between 32 and 8192.
pub fn is_supported_buffer_size(size: u32) -> (r: bool)
    ensures
        r == is_valid_buffer_size(size as int),
{
    if size < 32 || size > 8192 {
        return false;
    }
    let m: u32 = size - 1;
    let r = (size & m) == 0;
    assert(((size & m) == 0u32) <==> (size == 32u32 || size == 64u32 || size == 128u32 || size
        == 256u32 || size == 512u32 || size == 1024u32 || size == 2048u32 || size == 4096u32
        || size == 8192u32)) by (bit_vector)
        requires
            32u32 <= size <= 8192u32,
            m == size - 1u32,
    ;
    r
}

/// Output settings chosen by the user: which device (the platform default
/// when absent), the sample rate and the buffer size in frames.
#[derive(Debug, Clone)]
pub struct AudioConfig {
    pub device_id: Option<String>,
    pub sample_rate: u32,
    pub buffer_size: u32,
}

impl Default for AudioConfig {
    fn default() -> (r: AudioConfig)
        ensures
            r.device_id is None,
            r.sample_rate == SAMPLE_RATE,
            r.buffer_size == 512,
    {
        AudioConfig { device_id: None, sample_rate: SAMPLE_RATE, buffer_size: 512 }
    }
}

/// The error a configuration request is refused with, if any: the sample
/// rate is checked first, then the buffer size.
pub open spec fn config_error(sample_rate: Option<u32>, buffer_size: Option<u32>) -> Option<EngineError> {
    if sample_rate is Some && !is_candidate_rate(sample_rate->0 as int) {
        Some(EngineError::UnsupportedSampleRate)
    } else if buffer_size is Some && !is_valid_buffer_size(buffer_size->0 as int) {
        Some(EngineError::InvalidBufferSize)
    } else {
        None
    }
}

/// `c` with each given setting replaced.
pub open spec fn config_updated(c: AudioConfig, device_id: Option<String>, sample_rate: Option<u32>, buffer_size: Option<u32>) -> AudioConfig {
    AudioConfig {
        device_id: if device_id is Some { device_id } else { c.device_id },
        sample_rate: if sample_rate is Some { sample_rate->0 } else { c.sample_rate },
        buffer_size: if buffer_size is Some { buffer_size->0 } else { c.buffer_size },
    }
}

/// Checks a configuration request.
pub fn check_config(sample_rate: Option<u32>, buffer_size: Option<u32>) -> (r: Result<(), EngineError>)
    ensures
        r is Err <==> config_error(sample_rate, buffer_size) is Some,
        r is Err ==> r->Err_0 == config_error(sample_rate, buffer_size)->0,
{
    if let Some(rate) = sample_rate {
        if !is_supported_rate(rate) {
            return Err(EngineError::UnsupportedSampleRate);
        }
    }
    if let Some(size) = buffer_size {
        if !is_supported_buffer_size(size) {
            return Err(EngineError::InvalidBufferSize);
        }
    }
    Ok(())
}

impl AudioConfig {
    /// An exact copy.
    pub fn snapshot(&self) -> (r: AudioConfig)
        ensures
            r == *self,
    {
        let device_id = match &self.device_id {
            Some(s) => Some(s.clone()),
            None => None,
        };
        AudioConfig { device_id, sample_rate: self.sample_rate, buffer_size: self.buffer_size }
    }

    /// Replaces each setting that is given.
    pub fn apply(&mut self, device_id: Option<String>, sample_rate: Option<u32>, buffer_size: Option<u32>)
        ensures
            *final(self) == config_updated(*old(self), device_id, sample_rate, buffer_size),
    {
        if device_id.is_some() {
            self.device_id = device_id;
        }
        if let Some(rate) = sample_rate {
            self.sample_rate = rate;
        }
        if let Some(size) = buffer_size {
            self.buffer_size = size;
        }
    }
}

/// A device named by its host and its own name.
#[derive(Debug, Clone)]
pub struct DeviceId {
    pub host: String,
    pub name: String,
}

/// The composite text form `host:name`.
pub open spec fn device_id_text(host: Seq<char>, name: Seq<char>) -> Seq<char> {
    host + seq![':'] + name
}

/// Position of the first `:` in `s`.
pub open spec fn is_first_colon(s: Seq<char>, k: int) -> bool {
    0 <= k < s.len() && s[k] == ':' && forall|j: int| 0 <= j < k ==> s[j] != ':'
}

impl DeviceId {
    /// Splits `host:name` at its first colon; the name may hold more colons.
    /// Without a colon no device can be named: the device is not found.
    pub fn parse(id: &str) -> (r: Result<DeviceId, EngineError>)
        ensures
            r is Err <==> (forall|j: int| 0 <= j < id@.len() ==> id@[j] != ':'),
            r is Err ==> r->Err_0 == EngineError::DeviceNotFound,
            r is Ok ==> exists|k: int| #[trigger] is_first_colon(id@, k)
                && r->Ok_0.host@ == id@.subrange(0, k)
                && r->Ok_0.name@ == id@.subrange(k + 1, id@.len() as int),
    {
        let n = id.unicode_len();
        let mut k: usize = 0;
        while k < n
            invariant
                n == id@.len(),
                k <= n,
                forall|j: int| 0 <= j < k ==> id@[j] != ':',
            decreases n - k,
        {
            if id.get_char(k) == ':' {
                let host = id.substring_char(0, k).to_owned();
                let name = id.substring_char(k + 1, n).to_owned();
                assert(is_first_colon(id@, k as int));
                return Ok(DeviceId { host, name });
            }
            k = k + 1;
        }
        Err(EngineError::DeviceNotFound)
    }

    /// The composite text form `host:name`.
    pub fn to_text(&self) -> (r: String)
        ensures
            r@ == device_id_text(self.host@, self.name@),
    {
        let mut s = self.host.clone();
        s.append(":");
        s.append(self.name.as_str());
        proof {
            reveal_strlit(":");
        }
        s
    }
}

/// A device identifier whose host name holds no colon survives its text
/// form: parsing `host:name` gives back the same host and name.
pub proof fn device_id_round_trip(host: Seq<char>, name: Seq<char>)
    requires
        forall|j: int| 0 <= j < host.len() ==> host[j] != ':',
    ensures
        is_first_colon(device_id_text(host, name), host.len() as int),
        device_id_text(host, name).subrange(0, host.len() as int) == host,
        device_id_text(host, name).subrange(host.len() as int + 1, device_id_text(host, name).len() as int) == name,
        forall|k: int| #[trigger] is_first_colon(device_id_text(host, name), k) ==> k == host.len(),
{
    let t = device_id_text(host, name);
    assert(t[host.len() as int] == ':');
    assert forall|j: int| 0 <= j < host.len() implies t[j] != ':' by {
        assert(t[j] == host[j]);
    }
    assert(t.subrange(0, host.len() as int) =~= host);
    assert(t.subrange(host.len() as int + 1, t.len() as int) =~= name);
    assert forall|k: int| #[trigger] is_first_colon(t, k) implies k == host.len() by {
        if k < host.len() {
            assert(t[k] == host[k]);
        } else if k > host.len() {
            assert(t[host.len() as int] == ':');
        }
    }
}

} // verus!
