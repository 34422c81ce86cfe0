//! The byte budget that is fetched before playback starts.

use vstd::prelude::*;

verus! {

/// Seconds of audio that are buffered before playback starts.
pub const PREFETCH_SECONDS: u32 = 10;

/// Size of the in-memory window that holds the downloaded stream, in bytes.
pub const STORAGE_WINDOW_BYTES: usize = 524288;

/// Bytes that `PREFETCH_SECONDS` seconds of audio take at `bitrate` kilobits
/// per second: whole kilobytes per second, times 1024, times the seconds.
pub open spec fn spec_prefetch_bytes(bitrate: u32) -> int {
    (bitrate / 8) * 1024 * PREFETCH_SECONDS
}

/// A higher bitrate never takes a smaller budget, so a budget that fits leaves
/// room for every lower bitrate; and every budget is a whole number of
/// kilobytes for each second of prefetch.
pub proof fn lemma_prefetch_monotone(lower: u32, higher: u32)
    requires
        lower <= higher,
    ensures
        0 <= spec_prefetch_bytes(lower) <= spec_prefetch_bytes(higher),
        spec_prefetch_bytes(lower) % (1024 * PREFETCH_SECONDS) == 0,
        spec_prefetch_bytes(higher) <= u32::MAX ==> spec_prefetch_bytes(lower) <= u32::MAX,
{
    let low: int = (lower / 8) as int;
    let high: int = (higher / 8) as int;
    assert(low <= high);
    assert(spec_prefetch_bytes(lower) == low * 10240);
    assert(spec_prefetch_bytes(higher) == high * 10240);
    assert((low * 10240) % 10240 == 0) by (nonlinear_arith);
}

/// Whether the budget for `bitrate` fits the 32-bit arithmetic it is computed in.
pub fn prefetch_fits(bitrate: u32) -> (fits: bool)
    ensures
        fits == (spec_prefetch_bytes(bitrate) <= u32::MAX),
{
    bitrate / 8 <= u32::MAX / (1024 * PREFETCH_SECONDS)
}

/// The prefetch budget for a stream of `bitrate` kilobits per second.
pub fn prefetch_bytes(bitrate: u32) -> (bytes: u64)
    requires
        spec_prefetch_bytes(bitrate) <= u32::MAX,
    ensures
        bytes == spec_prefetch_bytes(bitrate),
{
    let kilobytes: u32 = bitrate / 8;
    let per_second: u32 = kilobytes * 1024;
    let total: u32 = per_second * PREFETCH_SECONDS;
    total as u64
}

/// What the pipeline is set up with once the stream's headers are known.
#[derive(Clone, Copy, Debug, PartialEq, Eq, Structural)]
pub struct StreamPlan {
    /// Bytes to fetch before playback starts.
    pub prefetch_bytes: u64,
    /// Audio bytes between two in-band metadata blocks, where the stream has any.
    pub metadata_interval: Option<usize>,
}

/// Why no plan can be made for a stream.
#[derive(Clone, Copy, Debug, PartialEq, Eq, Structural)]
pub enum PlanError {
    /// The stream advertises no bitrate.
    MissingBitrate,
    /// The prefetch budget for the advertised bitrate does not fit 32 bits.
    BudgetOverflow,
}

/// A metadata interval is either absent or a positive number of bytes: the
/// stream reader takes it as a non-zero number.
pub open spec fn valid_interval(interval: Option<usize>) -> bool {
    interval matches Some(n) ==> n > 0
}

impl StreamPlan {
    /// The plan's metadata interval is valid.
    pub open spec fn wf(&self) -> bool {
        valid_interval(self.metadata_interval)
    }
}

/// The plan for a stream with the given advertised bitrate and metadata interval.
pub open spec fn spec_stream_plan(bitrate: Option<u32>, metadata_interval: Option<usize>) -> Result<
    StreamPlan,
    PlanError,
> {
    match bitrate {
        None => Err(PlanError::MissingBitrate),
        Some(rate) => if spec_prefetch_bytes(rate) <= u32::MAX {
            Ok(
                StreamPlan {
                    prefetch_bytes: spec_prefetch_bytes(rate) as u64,
                    metadata_interval,
                },
            )
        } else {
            Err(PlanError::BudgetOverflow)
        },
    }
}

/// Makes the plan for a stream from what its headers advertise.
pub fn stream_plan(bitrate: Option<u32>, metadata_interval: Option<usize>) -> (plan: Result<
    StreamPlan,
    PlanError,
>)
    requires
        valid_interval(metadata_interval),
    ensures
        plan == spec_stream_plan(bitrate, metadata_interval),
        plan matches Ok(p) ==> p.wf(),
{
    match bitrate {
        None => Err(PlanError::MissingBitrate),
        Some(rate) => {
            if prefetch_fits(rate) {
                Ok(StreamPlan { prefetch_bytes: prefetch_bytes(rate), metadata_interval })
            } else {
                Err(PlanError::BudgetOverflow)
            }
        },
    }
}

} // verus!
