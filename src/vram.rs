use vstd::prelude::*;
use vstd::string::StringExecFns;

use crate::error::Error;
use crate::text::{decimal, decimal_text};

verus! {

/// Layer count assumed for a model when sizing a partial offload.
pub const ASSUMED_LAYER_COUNT: u32 = 32;

/// GPU memory kept free besides the layers, in hundredths of a GB.
pub const LAYER_OVERHEAD_CENTI_GB: i64 = 50;

/// Safety margin of the admission check, in percent.
pub const ADMISSION_MARGIN_PERCENT: u64 = 10;

/// One GPU as telemetry reports it.
#[derive(Debug, Clone)]
pub struct GpuInfo {
    pub id: u32,
    pub name: String,
    pub total_mb: u64,
    pub used_mb: u64,
    pub free_mb: u64,
    pub utilization_percent: u32,
    pub temperature_c: u32,
}

/// One process holding GPU memory.
#[derive(Debug, Clone)]
pub struct GpuProcess {
    pub gpu_id: u32,
    pub pid: u32,
    pub name: String,
    pub memory_mb: u64,
}

/// Complete point-in-time view of GPU memory.
#[derive(Debug, Clone)]
pub struct VramState {
    /// Time of the poll, as RFC 3339 text.
    pub timestamp: String,
    /// Memory over all devices, in MB.
    pub total_mb: u64,
    pub used_mb: u64,
    /// The same figures in hundredths of a GB, rounded to nearest.
    pub total_gb_centi: u64,
    pub used_gb_centi: u64,
    /// `total - used` in hundredths of a GB; negative if devices report
    /// more use than capacity.
    pub free_gb_centi: i64,
    /// `used / total` in tenths of a percent, rounded; 0 with no capacity.
    pub utilization_tenths: u64,
    pub gpus: Vec<GpuInfo>,
    pub processes: Vec<GpuProcess>,
}

/// Bytes in a MB.
pub const BYTES_PER_MB: u64 = 1048576;

impl GpuInfo {
    /// A device as its driver reports it: memory in bytes, the other
    /// readings where the driver gave them. Memory is kept in whole MB; a
    /// missing name becomes "GPU <id>", missing readings become 0.
    pub fn from_device(
        id: u32,
        name: Option<String>,
        total_bytes: u64,
        used_bytes: u64,
        free_bytes: u64,
        utilization: Option<u32>,
        temperature: Option<u32>,
    ) -> (r: GpuInfo)
        ensures
            r.id == id,
            r.name@ == match name {
                Some(n) => n@,
                None => "GPU "@ + decimal(id as nat),
            },
            r.total_mb == total_bytes / BYTES_PER_MB,
            r.used_mb == used_bytes / BYTES_PER_MB,
            r.free_mb == free_bytes / BYTES_PER_MB,
            r.utilization_percent == match utilization {
                Some(u) => u,
                None => 0,
            },
            r.temperature_c == match temperature {
                Some(t) => t,
                None => 0,
            },
    {
        let name = match name {
            Some(n) => n,
            None => {
                let mut n = String::from_str("GPU ");
                n.append(decimal_text(id).as_str());
                n
            },
        };
        GpuInfo {
            id,
            name,
            total_mb: total_bytes / BYTES_PER_MB,
            used_mb: used_bytes / BYTES_PER_MB,
            free_mb: free_bytes / BYTES_PER_MB,
            utilization_percent: match utilization {
                Some(u) => u,
                None => 0,
            },
            temperature_c: match temperature {
                Some(t) => t,
                None => 0,
            },
        }
    }
}

/// Total memory of the devices, in MB.
pub open spec fn sum_total_mb(gs: Seq<GpuInfo>) -> nat
    decreases gs.len(),
{
    if gs.len() == 0 {
        0
    } else {
        sum_total_mb(gs.drop_last()) + gs.last().total_mb as nat
    }
}

/// Used memory of the devices, in MB.
pub open spec fn sum_used_mb(gs: Seq<GpuInfo>) -> nat
    decreases gs.len(),
{
    if gs.len() == 0 {
        0
    } else {
        sum_used_mb(gs.drop_last()) + gs.last().used_mb as nat
    }
}

/// `n` capped at the largest `u64`.
pub open spec fn cap(n: nat) -> u64 {
    if n <= u64::MAX {
        n as u64
    } else {
        u64::MAX
    }
}

/// `mb` megabytes in hundredths of a GB, rounded half away from zero.
pub open spec fn centi_gb(mb: int) -> int {
    if mb >= 0 {
        (mb * 100 + 512) / 1024
    } else {
        -((-mb * 100 + 512) / 1024)
    }
}

/// `used / total` in tenths of a percent, rounded; 0 when `total` is 0.
pub open spec fn utilization_tenths_of(used: int, total: int) -> int {
    if total > 0 {
        (2000 * used + total) / (2 * total)
    } else {
        0
    }
}

/// Admission rule: `size` plus the safety margin fits in `free`.
pub open spec fn admits(size_centi: int, free_centi: int) -> bool {
    size_centi * (100 + ADMISSION_MARGIN_PERCENT) <= free_centi * 100
}

/// Layers of a model of `size_centi` that fit in `free_centi`, after the
/// overhead, each layer costing a 32nd of the model; within 0 and 32.
pub open spec fn layers_that_fit(free_centi: int, size_centi: int) -> int {
    let room = free_centi - LAYER_OVERHEAD_CENTI_GB;
    if room <= 0 {
        0
    } else if size_centi == 0 {
        ASSUMED_LAYER_COUNT as int
    } else if room * ASSUMED_LAYER_COUNT / size_centi >= ASSUMED_LAYER_COUNT {
        ASSUMED_LAYER_COUNT as int
    } else {
        room * ASSUMED_LAYER_COUNT / size_centi
    }
}

/// Admission in the model's own terms: a size is admitted exactly when
/// 1.1 times it does not exceed the free memory, for every size and every
/// amount of free memory.
pub proof fn lemma_admission_threshold(size_centi: int, free_centi: int)
    ensures
        admits(size_centi, free_centi) <==> 11 * size_centi <= 10 * free_centi,
        !admits(size_centi, free_centi) <==> 11 * size_centi > 10 * free_centi,
{
}

/// The layer recommendation lies between none and the assumed layer count.
pub proof fn lemma_layers_bounded(free_centi: int, size_centi: int)
    requires
        size_centi >= 0,
    ensures
        0 <= layers_that_fit(free_centi, size_centi) <= ASSUMED_LAYER_COUNT,
{
    let room = free_centi - LAYER_OVERHEAD_CENTI_GB;
    if room > 0 && size_centi > 0 {
        assert(room * 32 / size_centi >= 0) by (nonlinear_arith)
            requires room > 0, size_centi > 0;
    }
}

/// Hundredths of a GB of `mb` megabytes, rounded half away from zero.
fn to_centi_gb(mb: i128) -> (r: i64)
    requires
        -(u64::MAX as int) <= mb <= u64::MAX,
    ensures
        r == centi_gb(mb as int),
{
    if mb >= 0 {
        ((mb * 100 + 512) / 1024) as i64
    } else {
        -(((-mb) * 100 + 512) / 1024) as i64
    }
}

impl VramState {
    /// The snapshot of `gpus` and `processes` polled at `timestamp`: sums of
    /// the devices' memory (capped at the largest `u64`), and the derived
    /// figures.
    pub fn from_readings(timestamp: String, gpus: Vec<GpuInfo>, processes: Vec<GpuProcess>) -> (r: VramState)
        ensures
            r.timestamp == timestamp,
            r.gpus == gpus,
            r.processes == processes,
            r.total_mb == cap(sum_total_mb(gpus@)),
            r.used_mb == cap(sum_used_mb(gpus@)),
            r.total_gb_centi == centi_gb(r.total_mb as int),
            r.used_gb_centi == centi_gb(r.used_mb as int),
            r.free_gb_centi == centi_gb(r.total_mb - r.used_mb),
            r.utilization_tenths == cap(utilization_tenths_of(r.used_mb as int, r.total_mb as int) as nat),
    {
        let mut total: u64 = 0;
        let mut used: u64 = 0;
        let mut i: usize = 0;
        while i < gpus.len()
            invariant
                i <= gpus@.len(),
                total == cap(sum_total_mb(gpus@.subrange(0, i as int))),
                used == cap(sum_used_mb(gpus@.subrange(0, i as int))),
            decreases gpus@.len() - i,
        {
            proof {
                assert(gpus@.subrange(0, i + 1).drop_last() == gpus@.subrange(0, i as int));
            }
            total = total.saturating_add(gpus[i].total_mb);
            used = used.saturating_add(gpus[i].used_mb);
            i = i + 1;
        }
        proof {
            assert(gpus@.subrange(0, gpus@.len() as int) == gpus@);
        }
        let total_centi = to_centi_gb(total as i128);
        let used_centi = to_centi_gb(used as i128);
        let free_centi = to_centi_gb(total as i128 - used as i128);
        let utilization: u64 = if total > 0 {
            let t = total as u128;
            let u = used as u128;
            proof {
                assert(2000 * u + t <= 2001 * u64::MAX) by (nonlinear_arith)
                    requires u <= u64::MAX, t <= u64::MAX;
            }
            let q = (2000 * u + t) / (2 * t);
            if q > u64::MAX as u128 {
                u64::MAX
            } else {
                q as u64
            }
        } else {
            0
        };
        VramState {
            timestamp,
            total_mb: total,
            used_mb: used,
            total_gb_centi: total_centi as u64,
            used_gb_centi: used_centi as u64,
            free_gb_centi: free_centi,
            utilization_tenths: utilization,
            gpus,
            processes,
        }
    }

    /// Whether `required_centi` hundredths of a GB, plus `margin_percent`
    /// of it, fit in the free memory.
    pub fn can_fit(&self, required_centi: u64, margin_percent: u32) -> (r: bool)
        ensures
            r == (required_centi * (100 + margin_percent) <= self.free_gb_centi * 100),
    {
        let factor: i128 = 100 + margin_percent as i128;
        proof {
            let rc = required_centi as int;
            assert(0 <= rc * factor <= u64::MAX * (100 + u32::MAX)) by (nonlinear_arith)
                requires 0 <= rc <= u64::MAX, 0 <= factor <= 100 + u32::MAX;
        }
        let need: i128 = required_centi as i128 * factor;
        need <= (self.free_gb_centi as i128) * 100
    }

    /// Advisory count of layers of a model of `model_size_centi` hundredths
    /// of a GB to offload to the GPU.
    pub fn recommend_layers(&self, model_size_centi: u64) -> (r: u32)
        ensures
            r == layers_that_fit(self.free_gb_centi as int, model_size_centi as int),
            r <= ASSUMED_LAYER_COUNT,
    {
        let room: i128 = self.free_gb_centi as i128 - LAYER_OVERHEAD_CENTI_GB as i128;
        if room <= 0 {
            0
        } else if model_size_centi == 0 {
            ASSUMED_LAYER_COUNT
        } else {
            assert(room <= i64::MAX as int + 50);
            let scaled: i128 = room * 32;
            let layers = scaled / model_size_centi as i128;
            if layers >= ASSUMED_LAYER_COUNT as i128 {
                ASSUMED_LAYER_COUNT
            } else {
                layers as u32
            }
        }
    }
}

/// Admission check before a load or a switch: a model of `size_centi`
/// hundredths of a GB may load when it fits, with 10 percent to spare, in
/// the free memory of `state`. Otherwise the shortfall, in thousandths of a
/// GB: what was required and what was free.
pub fn can_load_model(state: &VramState, size_centi: u32) -> (r: Result<(), Error>)
    ensures
        r is Ok <==> admits(size_centi as int, state.free_gb_centi as int),
        r matches Err(e) ==> e == (Error::InsufficientResources {
            required_mgb: (size_centi * 11) as u64,
            available_mgb: (state.free_gb_centi * 10) as i128,
        }),
{
    let required_mgb: u64 = size_centi as u64 * 11;
    let available_mgb: i128 = state.free_gb_centi as i128 * 10;
    if (required_mgb as i128) <= available_mgb {
        Ok(())
    } else {
        Err(Error::insufficient_resources(required_mgb, available_mgb))
    }
}

} // verus!
