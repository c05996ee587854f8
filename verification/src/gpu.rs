//! GPU hardware profiles: the table of known models, the fallback by
//! vendor and video memory, and what the AI benchmark derives from a profile.
//!
//! Bandwidths are in hundredths of GB/s and throughputs in hundredths
//! (table values) or tenths (derived figures) of TFLOPS.

use vstd::prelude::*;
use crate::text::{
    ascii_lowercase, ascii_uppercase, contains, has_sub, is_ascii_text, lemma_ascii_case_round_trip, lit,
    lowercase, to_lower,
};

verus! {

/// The hardware profile of a GPU.
pub struct GpuProfile {
    pub vendor: String,
    pub architecture: String,
    pub compute_cores: u32,
    pub memory_bus_width_bits: u32,
    /// Memory bandwidth in hundredths of GB/s.
    pub memory_bandwidth_centi: u64,
    /// Baseline FP32 throughput in hundredths of TFLOPS.
    pub fp32_tflops_centi: u64,
}

pub struct GpuProfileView {
    pub vendor: Seq<char>,
    pub architecture: Seq<char>,
    pub compute_cores: u32,
    pub memory_bus_width_bits: u32,
    pub memory_bandwidth_centi: u64,
    pub fp32_tflops_centi: u64,
}

impl View for GpuProfile {
    type V = GpuProfileView;

    open spec fn view(&self) -> GpuProfileView {
        GpuProfileView {
            vendor: self.vendor@,
            architecture: self.architecture@,
            compute_cores: self.compute_cores,
            memory_bus_width_bits: self.memory_bus_width_bits,
            memory_bandwidth_centi: self.memory_bandwidth_centi,
            fp32_tflops_centi: self.fp32_tflops_centi,
        }
    }
}

pub open spec fn profile_view(
    vendor: Seq<char>,
    architecture: Seq<char>,
    cores: u32,
    bus: u32,
    bandwidth_centi: u64,
    tflops_centi: u64,
) -> GpuProfileView {
    GpuProfileView {
        vendor,
        architecture,
        compute_cores: cores,
        memory_bus_width_bits: bus,
        memory_bandwidth_centi: bandwidth_centi,
        fp32_tflops_centi: tflops_centi,
    }
}

/// One row of the model table, as compiled-in text.
pub struct GpuTableRow {
    pub pattern: &'static str,
    pub vendor: &'static str,
    pub architecture: &'static str,
    pub compute_cores: u32,
    pub memory_bus_width_bits: u32,
    pub memory_bandwidth_centi: u64,
    pub fp32_tflops_centi: u64,
}

impl GpuTableRow {
    pub open spec fn view(&self) -> GpuProfileView {
        profile_view(
            self.vendor@,
            self.architecture@,
            self.compute_cores,
            self.memory_bus_width_bits,
            self.memory_bandwidth_centi,
            self.fp32_tflops_centi,
        )
    }
}

/// How many rows the table of known GPU models has.
pub open spec fn gpu_table_len() -> int { 127 }

/// Row `i` of the table of known GPU models: the lower-case text that
/// identifies the model, and the hardware profile it stands for.
/// Rows are tried in order; the first whose text occurs in the name wins.
pub open spec fn gpu_row(i: int) -> (Seq<char>, GpuProfileView) {
    if i == 0 {
        ("5090"@, profile_view("NVIDIA"@, "Blackwell (GB202)"@, 24576, 512, 179200, 13000))
    } else if i == 1 {
        ("5080"@, profile_view("NVIDIA"@, "Blackwell (GB203)"@, 10752, 256, 102400, 7000))
    } else if i == 2 {
        ("5070 ti"@, profile_view("NVIDIA"@, "Blackwell (GB203)"@, 8960, 256, 89600, 5500))
    } else if i == 3 {
        ("5070"@, profile_view("NVIDIA"@, "Blackwell (GB205)"@, 6144, 192, 67200, 4200))
    } else if i == 4 {
        ("4090"@, profile_view("NVIDIA"@, "Ada Lovelace (AD102)"@, 16384, 384, 100800, 8258))
    } else if i == 5 {
        ("4080 super"@, profile_view("NVIDIA"@, "Ada Lovelace (AD103)"@, 10240, 256, 73600, 5222))
    } else if i == 6 {
        ("4080"@, profile_view("NVIDIA"@, "Ada Lovelace (AD103)"@, 9728, 256, 71680, 4874))
    } else if i == 7 {
        ("4070 ti super"@, profile_view("NVIDIA"@, "Ada Lovelace (AD103)"@, 8448, 256, 67200, 4410))
    } else if i == 8 {
        ("4070 ti"@, profile_view("NVIDIA"@, "Ada Lovelace (AD104)"@, 7680, 192, 50420, 4009))
    } else if i == 9 {
        ("4070 super"@, profile_view("NVIDIA"@, "Ada Lovelace (AD104)"@, 7168, 192, 50420, 3548))
    } else if i == 10 {
        ("4070"@, profile_view("NVIDIA"@, "Ada Lovelace (AD104)"@, 5888, 192, 50420, 2915))
    } else if i == 11 {
        ("4060 ti"@, profile_view("NVIDIA"@, "Ada Lovelace (AD106)"@, 4352, 128, 28800, 2206))
    } else if i == 12 {
        ("4060"@, profile_view("NVIDIA"@, "Ada Lovelace (AD107)"@, 3072, 128, 27200, 1511))
    } else if i == 13 {
        ("4050"@, profile_view("NVIDIA"@, "Ada Lovelace (AD107)"@, 2560, 96, 19200, 1120))
    } else if i == 14 {
        ("3090 ti"@, profile_view("NVIDIA"@, "Ampere (GA102)"@, 10752, 384, 100800, 4000))
    } else if i == 15 {
        ("3090"@, profile_view("NVIDIA"@, "Ampere (GA102)"@, 10496, 384, 93620, 3558))
    } else if i == 16 {
        ("3080 ti"@, profile_view("NVIDIA"@, "Ampere (GA102)"@, 10240, 384, 91240, 3410))
    } else if i == 17 {
        ("3080"@, profile_view("NVIDIA"@, "Ampere (GA102)"@, 8704, 320, 76000, 2977))
    } else if i == 18 {
        ("3070 ti"@, profile_view("NVIDIA"@, "Ampere (GA104)"@, 6144, 256, 60830, 2175))
    } else if i == 19 {
        ("3070"@, profile_view("NVIDIA"@, "Ampere (GA104)"@, 5888, 256, 44800, 2031))
    } else if i == 20 {
        ("3060 ti"@, profile_view("NVIDIA"@, "Ampere (GA104)"@, 4864, 256, 44800, 1620))
    } else if i == 21 {
        ("3060"@, profile_view("NVIDIA"@, "Ampere (GA106)"@, 3584, 192, 36000, 1274))
    } else if i == 22 {
        ("3050"@, profile_view("NVIDIA"@, "Ampere (GA106/GA107)"@, 2560, 128, 22400, 911))
    } else if i == 23 {
        ("2080 ti"@, profile_view("NVIDIA"@, "Turing (TU102)"@, 4352, 352, 61600, 1345))
    } else if i == 24 {
        ("2080 super"@, profile_view("NVIDIA"@, "Turing (TU104)"@, 3072, 256, 49600, 1115))
    } else if i == 25 {
        ("2080"@, profile_view("NVIDIA"@, "Turing (TU104)"@, 2944, 256, 44800, 1007))
    } else if i == 26 {
        ("2070 super"@, profile_view("NVIDIA"@, "Turing (TU104)"@, 2560, 256, 44800, 906))
    } else if i == 27 {
        ("2070"@, profile_view("NVIDIA"@, "Turing (TU106)"@, 2304, 256, 44800, 746))
    } else if i == 28 {
        ("2060 super"@, profile_view("NVIDIA"@, "Turing (TU106)"@, 2176, 256, 44800, 720))
    } else if i == 29 {
        ("2060"@, profile_view("NVIDIA"@, "Turing (TU106)"@, 1920, 192, 33600, 645))
    } else if i == 30 {
        ("1660 ti"@, profile_view("NVIDIA"@, "Turing (TU116)"@, 1536, 192, 28800, 544))
    } else if i == 31 {
        ("1660 super"@, profile_view("NVIDIA"@, "Turing (TU116)"@, 1408, 192, 33600, 502))
    } else if i == 32 {
        ("1660"@, profile_view("NVIDIA"@, "Turing (TU116)"@, 1408, 192, 19200, 502))
    } else if i == 33 {
        ("1650 super"@, profile_view("NVIDIA"@, "Turing (TU116)"@, 1280, 128, 19200, 441))
    } else if i == 34 {
        ("1650"@, profile_view("NVIDIA"@, "Turing (TU117)"@, 896, 128, 12800, 298))
    } else if i == 35 {
        ("1080 ti"@, profile_view("NVIDIA"@, "Pascal (GP102)"@, 3584, 352, 48440, 1134))
    } else if i == 36 {
        ("1080"@, profile_view("NVIDIA"@, "Pascal (GP104)"@, 2560, 256, 32000, 887))
    } else if i == 37 {
        ("1070 ti"@, profile_view("NVIDIA"@, "Pascal (GP104)"@, 2432, 256, 25600, 819))
    } else if i == 38 {
        ("1070"@, profile_view("NVIDIA"@, "Pascal (GP104)"@, 1920, 256, 25600, 646))
    } else if i == 39 {
        ("1060"@, profile_view("NVIDIA"@, "Pascal (GP106)"@, 1280, 192, 19200, 437))
    } else if i == 40 {
        ("1050 ti"@, profile_view("NVIDIA"@, "Pascal (GP107)"@, 768, 128, 11200, 214))
    } else if i == 41 {
        ("1050"@, profile_view("NVIDIA"@, "Pascal (GP107)"@, 640, 128, 11200, 186))
    } else if i == 42 {
        ("980 ti"@, profile_view("NVIDIA"@, "Maxwell 2.0 (GM200)"@, 2816, 384, 33650, 606))
    } else if i == 43 {
        ("980"@, profile_view("NVIDIA"@, "Maxwell 2.0 (GM204)"@, 2048, 256, 22400, 461))
    } else if i == 44 {
        ("970"@, profile_view("NVIDIA"@, "Maxwell 2.0 (GM204)"@, 1664, 256, 22400, 349))
    } else if i == 45 {
        ("960"@, profile_view("NVIDIA"@, "Maxwell 2.0 (GM206)"@, 1024, 128, 11200, 230))
    } else if i == 46 {
        ("950"@, profile_view("NVIDIA"@, "Maxwell 2.0 (GM206)"@, 768, 128, 10560, 183))
    } else if i == 47 {
        ("750 ti"@, profile_view("NVIDIA"@, "Maxwell 1.0 (GM107)"@, 640, 128, 8640, 139))
    } else if i == 48 {
        ("a100"@, profile_view("NVIDIA"@, "Ampere Tensor Core (GA100)"@, 6912, 5120, 203900, 1950))
    } else if i == 49 {
        ("h100"@, profile_view("NVIDIA"@, "Hopper Tensor Core (GH100)"@, 14592, 5120, 335000, 6000))
    } else if i == 50 {
        ("l40"@, profile_view("NVIDIA"@, "Ada Lovelace Enterprise (AD102)"@, 18176, 384, 86400, 9050))
    } else if i == 51 {
        ("rtx a6000"@, profile_view("NVIDIA"@, "Ada/Ampere Workstation"@, 10752, 384, 76800, 3870))
    } else if i == 52 {
        ("rtx 6000"@, profile_view("NVIDIA"@, "Ada/Ampere Workstation"@, 10752, 384, 76800, 3870))
    } else if i == 53 {
        ("rtx a5000"@, profile_view("NVIDIA"@, "Ampere Workstation (GA102)"@, 8192, 384, 76800, 2780))
    } else if i == 54 {
        ("rtx 5000"@, profile_view("NVIDIA"@, "Ampere Workstation (GA102)"@, 8192, 384, 76800, 2780))
    } else if i == 55 {
        ("rtx a4000"@, profile_view("NVIDIA"@, "Ampere Workstation (GA104)"@, 6144, 256, 44800, 1920))
    } else if i == 56 {
        ("rtx 4000"@, profile_view("NVIDIA"@, "Ampere Workstation (GA104)"@, 6144, 256, 44800, 1920))
    } else if i == 57 {
        ("rtx a2000"@, profile_view("NVIDIA"@, "Ampere Workstation (GA106)"@, 3328, 192, 28800, 800))
    } else if i == 58 {
        ("rtx 2000"@, profile_view("NVIDIA"@, "Ampere Workstation (GA106)"@, 3328, 192, 28800, 800))
    } else if i == 59 {
        ("7900 xtx"@, profile_view("AMD"@, "RDNA 3 (Navi 31)"@, 6144, 384, 96000, 6140))
    } else if i == 60 {
        ("7900 xt"@, profile_view("AMD"@, "RDNA 3 (Navi 31)"@, 5376, 320, 80000, 5160))
    } else if i == 61 {
        ("7900 gre"@, profile_view("AMD"@, "RDNA 3 (Navi 31)"@, 5120, 256, 57600, 4600))
    } else if i == 62 {
        ("7800 xt"@, profile_view("AMD"@, "RDNA 3 (Navi 32)"@, 3840, 256, 62400, 3730))
    } else if i == 63 {
        ("7700 xt"@, profile_view("AMD"@, "RDNA 3 (Navi 32)"@, 3456, 192, 43200, 3520))
    } else if i == 64 {
        ("7600 xt"@, profile_view("AMD"@, "RDNA 3 (Navi 33)"@, 2048, 128, 28800, 2170))
    } else if i == 65 {
        ("7600"@, profile_view("AMD"@, "RDNA 3 (Navi 33)"@, 2048, 128, 28800, 2170))
    } else if i == 66 {
        ("890m"@, profile_view("AMD"@, "RDNA 3.5 (Strix Point SoC)"@, 1024, 128, 12800, 1120))
    } else if i == 67 {
        ("780m"@, profile_view("AMD"@, "RDNA 3 (Phoenix SoC)"@, 768, 128, 10240, 890))
    } else if i == 68 {
        ("6950 xt"@, profile_view("AMD"@, "RDNA 2 (Navi 21)"@, 5120, 256, 57600, 2300))
    } else if i == 69 {
        ("6900 xt"@, profile_view("AMD"@, "RDNA 2 (Navi 21)"@, 5120, 256, 57600, 2300))
    } else if i == 70 {
        ("6800 xt"@, profile_view("AMD"@, "RDNA 2 (Navi 21)"@, 4608, 256, 51200, 2070))
    } else if i == 71 {
        ("6800"@, profile_view("AMD"@, "RDNA 2 (Navi 21)"@, 4608, 256, 51200, 2070))
    } else if i == 72 {
        ("6750 xt"@, profile_view("AMD"@, "RDNA 2 (Navi 22)"@, 2560, 192, 38400, 1320))
    } else if i == 73 {
        ("6700 xt"@, profile_view("AMD"@, "RDNA 2 (Navi 22)"@, 2560, 192, 38400, 1320))
    } else if i == 74 {
        ("6700"@, profile_view("AMD"@, "RDNA 2 (Navi 22)"@, 2560, 192, 38400, 1320))
    } else if i == 75 {
        ("6650 xt"@, profile_view("AMD"@, "RDNA 2 (Navi 23)"@, 2048, 128, 22400, 1060))
    } else if i == 76 {
        ("6600 xt"@, profile_view("AMD"@, "RDNA 2 (Navi 23)"@, 2048, 128, 22400, 1060))
    } else if i == 77 {
        ("6600"@, profile_view("AMD"@, "RDNA 2 (Navi 23)"@, 2048, 128, 22400, 1060))
    } else if i == 78 {
        ("6500 xt"@, profile_view("AMD"@, "RDNA 2 (Navi 24)"@, 1024, 64, 14400, 570))
    } else if i == 79 {
        ("6400"@, profile_view("AMD"@, "RDNA 2 (Navi 24)"@, 1024, 64, 14400, 570))
    } else if i == 80 {
        ("680m"@, profile_view("AMD"@, "RDNA 2 (Rembrandt SoC)"@, 768, 128, 10240, 340))
    } else if i == 81 {
        ("5700 xt"@, profile_view("AMD"@, "RDNA 1 (Navi 10)"@, 2560, 256, 44800, 975))
    } else if i == 82 {
        ("5700"@, profile_view("AMD"@, "RDNA 1 (Navi 10)"@, 2560, 256, 44800, 975))
    } else if i == 83 {
        ("5600 xt"@, profile_view("AMD"@, "RDNA 1 (Navi 14)"@, 1536, 128, 22400, 520))
    } else if i == 84 {
        ("5500 xt"@, profile_view("AMD"@, "RDNA 1 (Navi 14)"@, 1536, 128, 22400, 520))
    } else if i == 85 {
        ("vega"@, profile_view("AMD"@, "GCN 5.0 (Vega Architecture)"@, 3840, 2048, 102400, 1340))
    } else if i == 86 {
        ("radeon vii"@, profile_view("AMD"@, "GCN 5.0 (Vega Architecture)"@, 3840, 2048, 102400, 1340))
    } else if i == 87 {
        ("590"@, profile_view("AMD"@, "GCN 4.0 (Polaris Architecture)"@, 2304, 256, 25600, 617))
    } else if i == 88 {
        ("580"@, profile_view("AMD"@, "GCN 4.0 (Polaris Architecture)"@, 2304, 256, 25600, 617))
    } else if i == 89 {
        ("570"@, profile_view("AMD"@, "GCN 4.0 (Polaris Architecture)"@, 2304, 256, 25600, 617))
    } else if i == 90 {
        ("480"@, profile_view("AMD"@, "GCN 4.0 (Polaris Architecture)"@, 2304, 256, 25600, 617))
    } else if i == 91 {
        ("470"@, profile_view("AMD"@, "GCN 4.0 (Polaris Architecture)"@, 2304, 256, 25600, 617))
    } else if i == 92 {
        ("b580"@, profile_view("Intel"@, "Xe2 Battlemage (BMG-G21)"@, 2560, 192, 45600, 1970))
    } else if i == 93 {
        ("b570"@, profile_view("Intel"@, "Xe2 Battlemage (BMG-G21)"@, 2304, 160, 38000, 1770))
    } else if i == 94 {
        ("a770"@, profile_view("Intel"@, "Xe-HPG Alchemist (ACM-G10)"@, 4096, 256, 56000, 1960))
    } else if i == 95 {
        ("a750"@, profile_view("Intel"@, "Xe-HPG Alchemist (ACM-G10)"@, 3584, 256, 51200, 1720))
    } else if i == 96 {
        ("a580"@, profile_view("Intel"@, "Xe-HPG Alchemist (ACM-G10)"@, 3072, 256, 51200, 1410))
    } else if i == 97 {
        ("a380"@, profile_view("Intel"@, "Xe-HPG Alchemist (ACM-G11)"@, 1024, 96, 18600, 410))
    } else if i == 98 {
        ("a310"@, profile_view("Intel"@, "Xe-HPG Alchemist (ACM-G11)"@, 1024, 96, 18600, 410))
    } else if i == 99 {
        ("140v"@, profile_view("Intel"@, "Xe2 Lunar Lake Arc Graphics"@, 1024, 128, 13600, 1040))
    } else if i == 100 {
        ("130v"@, profile_view("Intel"@, "Xe2 Lunar Lake Arc Graphics"@, 1024, 128, 13600, 1040))
    } else if i == 101 {
        ("arc"@, profile_view("Intel"@, "Xe-LPG Arc Graphics"@, 1024, 128, 12000, 460))
    } else if i == 102 {
        ("iris"@, profile_view("Intel"@, "Intel Iris Xe Graphics (96EU)"@, 768, 128, 6800, 222))
    } else if i == 103 {
        ("uhd 770"@, profile_view("Intel"@, "Intel UHD Graphics 700-series"@, 256, 128, 5000, 85))
    } else if i == 104 {
        ("uhd 750"@, profile_view("Intel"@, "Intel UHD Graphics 700-series"@, 256, 128, 5000, 85))
    } else if i == 105 {
        ("uhd 730"@, profile_view("Intel"@, "Intel UHD Graphics 700-series"@, 256, 128, 5000, 85))
    } else if i == 106 {
        ("uhd 630"@, profile_view("Intel"@, "Intel UHD Graphics 600-series"@, 192, 64, 4160, 46))
    } else if i == 107 {
        ("uhd 620"@, profile_view("Intel"@, "Intel UHD Graphics 600-series"@, 192, 64, 4160, 46))
    } else if i == 108 {
        ("uhd"@, profile_view("Intel"@, "Intel UHD Graphics 600-series"@, 192, 64, 4160, 46))
    } else if i == 109 {
        ("hd graphics"@, profile_view("Intel"@, "Intel HD Graphics Architecture"@, 192, 64, 2560, 38))
    } else if i == 110 {
        ("m4 max"@, profile_view("Apple"@, "Apple M4 Max GPU (40-Core)"@, 5120, 512, 54600, 4100))
    } else if i == 111 {
        ("m4 pro"@, profile_view("Apple"@, "Apple M4 Pro GPU (20-Core)"@, 2560, 256, 27300, 2050))
    } else if i == 112 {
        ("m4"@, profile_view("Apple"@, "Apple M4 GPU (10-Core)"@, 1280, 128, 12000, 1020))
    } else if i == 113 {
        ("m3 max"@, profile_view("Apple"@, "Apple M3 Max GPU (40-Core)"@, 5120, 384, 40000, 3580))
    } else if i == 114 {
        ("m3 pro"@, profile_view("Apple"@, "Apple M3 Pro GPU (18-Core)"@, 2304, 192, 15000, 1610))
    } else if i == 115 {
        ("m3"@, profile_view("Apple"@, "Apple M3 GPU (10-Core)"@, 1280, 128, 10000, 900))
    } else if i == 116 {
        ("m2 ultra"@, profile_view("Apple"@, "Apple M2 Ultra GPU (76-Core)"@, 9728, 800, 80000, 5400))
    } else if i == 117 {
        ("m2 max"@, profile_view("Apple"@, "Apple M2 Max GPU (38-Core)"@, 4864, 512, 40000, 2720))
    } else if i == 118 {
        ("m2 pro"@, profile_view("Apple"@, "Apple M2 Pro GPU (19-Core)"@, 2432, 256, 20000, 1360))
    } else if i == 119 {
        ("m2"@, profile_view("Apple"@, "Apple M2 GPU (10-Core)"@, 1280, 128, 10000, 720))
    } else if i == 120 {
        ("m1 ultra"@, profile_view("Apple"@, "Apple M1 Ultra GPU (64-Core)"@, 8192, 800, 80000, 4200))
    } else if i == 121 {
        ("m1 max"@, profile_view("Apple"@, "Apple M1 Max GPU (32-Core)"@, 4096, 512, 40000, 2180))
    } else if i == 122 {
        ("m1 pro"@, profile_view("Apple"@, "Apple M1 Pro GPU (16-Core)"@, 2048, 256, 20000, 1090))
    } else if i == 123 {
        ("m1"@, profile_view("Apple"@, "Apple M1 GPU (8-Core)"@, 1024, 128, 6825, 520))
    } else if i == 124 {
        ("apple"@, profile_view("Apple"@, "Apple M1 GPU (8-Core)"@, 1024, 128, 6825, 520))
    } else if i == 125 {
        ("snapdragon"@, profile_view("Qualcomm"@, "Adreno X1-85 GPU/NPU"@, 1536, 128, 13500, 460))
    } else if i == 126 {
        ("adreno"@, profile_view("Qualcomm"@, "Adreno X1-85 GPU/NPU"@, 1536, 128, 13500, 460))
    } else {
        (Seq::empty(), profile_view(Seq::empty(), Seq::empty(), 0, 0, 0, 0))
    }
}

/// Row `i` of the table of known GPU models.
fn gpu_row_at(i: usize) -> (r: GpuTableRow)
    requires
        i < gpu_table_len(),
    ensures
        r.pattern@ == gpu_row(i as int).0,
        r.view() == gpu_row(i as int).1,
        r.fp32_tflops_centi <= 13000,
        r.memory_bandwidth_centi <= 335000,
        r.compute_cores <= 24576,
        r.memory_bus_width_bits <= 5120,
{
    if i == 0 {
        GpuTableRow { pattern: "5090", vendor: "NVIDIA", architecture: "Blackwell (GB202)", compute_cores: 24576, memory_bus_width_bits: 512, memory_bandwidth_centi: 179200, fp32_tflops_centi: 13000 }
    } else if i == 1 {
        GpuTableRow { pattern: "5080", vendor: "NVIDIA", architecture: "Blackwell (GB203)", compute_cores: 10752, memory_bus_width_bits: 256, memory_bandwidth_centi: 102400, fp32_tflops_centi: 7000 }
    } else if i == 2 {
        GpuTableRow { pattern: "5070 ti", vendor: "NVIDIA", architecture: "Blackwell (GB203)", compute_cores: 8960, memory_bus_width_bits: 256, memory_bandwidth_centi: 89600, fp32_tflops_centi: 5500 }
    } else if i == 3 {
        GpuTableRow { pattern: "5070", vendor: "NVIDIA", architecture: "Blackwell (GB205)", compute_cores: 6144, memory_bus_width_bits: 192, memory_bandwidth_centi: 67200, fp32_tflops_centi: 4200 }
    } else if i == 4 {
        GpuTableRow { pattern: "4090", vendor: "NVIDIA", architecture: "Ada Lovelace (AD102)", compute_cores: 16384, memory_bus_width_bits: 384, memory_bandwidth_centi: 100800, fp32_tflops_centi: 8258 }
    } else if i == 5 {
        GpuTableRow { pattern: "4080 super", vendor: "NVIDIA", architecture: "Ada Lovelace (AD103)", compute_cores: 10240, memory_bus_width_bits: 256, memory_bandwidth_centi: 73600, fp32_tflops_centi: 5222 }
    } else if i == 6 {
        GpuTableRow { pattern: "4080", vendor: "NVIDIA", architecture: "Ada Lovelace (AD103)", compute_cores: 9728, memory_bus_width_bits: 256, memory_bandwidth_centi: 71680, fp32_tflops_centi: 4874 }
    } else if i == 7 {
        GpuTableRow { pattern: "4070 ti super", vendor: "NVIDIA", architecture: "Ada Lovelace (AD103)", compute_cores: 8448, memory_bus_width_bits: 256, memory_bandwidth_centi: 67200, fp32_tflops_centi: 4410 }
    } else if i == 8 {
        GpuTableRow { pattern: "4070 ti", vendor: "NVIDIA", architecture: "Ada Lovelace (AD104)", compute_cores: 7680, memory_bus_width_bits: 192, memory_bandwidth_centi: 50420, fp32_tflops_centi: 4009 }
    } else if i == 9 {
        GpuTableRow { pattern: "4070 super", vendor: "NVIDIA", architecture: "Ada Lovelace (AD104)", compute_cores: 7168, memory_bus_width_bits: 192, memory_bandwidth_centi: 50420, fp32_tflops_centi: 3548 }
    } else if i == 10 {
        GpuTableRow { pattern: "4070", vendor: "NVIDIA", architecture: "Ada Lovelace (AD104)", compute_cores: 5888, memory_bus_width_bits: 192, memory_bandwidth_centi: 50420, fp32_tflops_centi: 2915 }
    } else if i == 11 {
        GpuTableRow { pattern: "4060 ti", vendor: "NVIDIA", architecture: "Ada Lovelace (AD106)", compute_cores: 4352, memory_bus_width_bits: 128, memory_bandwidth_centi: 28800, fp32_tflops_centi: 2206 }
    } else if i == 12 {
        GpuTableRow { pattern: "4060", vendor: "NVIDIA", architecture: "Ada Lovelace (AD107)", compute_cores: 3072, memory_bus_width_bits: 128, memory_bandwidth_centi: 27200, fp32_tflops_centi: 1511 }
    } else if i == 13 {
        GpuTableRow { pattern: "4050", vendor: "NVIDIA", architecture: "Ada Lovelace (AD107)", compute_cores: 2560, memory_bus_width_bits: 96, memory_bandwidth_centi: 19200, fp32_tflops_centi: 1120 }
    } else if i == 14 {
        GpuTableRow { pattern: "3090 ti", vendor: "NVIDIA", architecture: "Ampere (GA102)", compute_cores: 10752, memory_bus_width_bits: 384, memory_bandwidth_centi: 100800, fp32_tflops_centi: 4000 }
    } else if i == 15 {
        GpuTableRow { pattern: "3090", vendor: "NVIDIA", architecture: "Ampere (GA102)", compute_cores: 10496, memory_bus_width_bits: 384, memory_bandwidth_centi: 93620, fp32_tflops_centi: 3558 }
    } else if i == 16 {
        GpuTableRow { pattern: "3080 ti", vendor: "NVIDIA", architecture: "Ampere (GA102)", compute_cores: 10240, memory_bus_width_bits: 384, memory_bandwidth_centi: 91240, fp32_tflops_centi: 3410 }
    } else if i == 17 {
        GpuTableRow { pattern: "3080", vendor: "NVIDIA", architecture: "Ampere (GA102)", compute_cores: 8704, memory_bus_width_bits: 320, memory_bandwidth_centi: 76000, fp32_tflops_centi: 2977 }
    } else if i == 18 {
        GpuTableRow { pattern: "3070 ti", vendor: "NVIDIA", architecture: "Ampere (GA104)", compute_cores: 6144, memory_bus_width_bits: 256, memory_bandwidth_centi: 60830, fp32_tflops_centi: 2175 }
    } else if i == 19 {
        GpuTableRow { pattern: "3070", vendor: "NVIDIA", architecture: "Ampere (GA104)", compute_cores: 5888, memory_bus_width_bits: 256, memory_bandwidth_centi: 44800, fp32_tflops_centi: 2031 }
    } else if i == 20 {
        GpuTableRow { pattern: "3060 ti", vendor: "NVIDIA", architecture: "Ampere (GA104)", compute_cores: 4864, memory_bus_width_bits: 256, memory_bandwidth_centi: 44800, fp32_tflops_centi: 1620 }
    } else if i == 21 {
        GpuTableRow { pattern: "3060", vendor: "NVIDIA", architecture: "Ampere (GA106)", compute_cores: 3584, memory_bus_width_bits: 192, memory_bandwidth_centi: 36000, fp32_tflops_centi: 1274 }
    } else if i == 22 {
        GpuTableRow { pattern: "3050", vendor: "NVIDIA", architecture: "Ampere (GA106/GA107)", compute_cores: 2560, memory_bus_width_bits: 128, memory_bandwidth_centi: 22400, fp32_tflops_centi: 911 }
    } else if i == 23 {
        GpuTableRow { pattern: "2080 ti", vendor: "NVIDIA", architecture: "Turing (TU102)", compute_cores: 4352, memory_bus_width_bits: 352, memory_bandwidth_centi: 61600, fp32_tflops_centi: 1345 }
    } else if i == 24 {
        GpuTableRow { pattern: "2080 super", vendor: "NVIDIA", architecture: "Turing (TU104)", compute_cores: 3072, memory_bus_width_bits: 256, memory_bandwidth_centi: 49600, fp32_tflops_centi: 1115 }
    } else if i == 25 {
        GpuTableRow { pattern: "2080", vendor: "NVIDIA", architecture: "Turing (TU104)", compute_cores: 2944, memory_bus_width_bits: 256, memory_bandwidth_centi: 44800, fp32_tflops_centi: 1007 }
    } else if i == 26 {
        GpuTableRow { pattern: "2070 super", vendor: "NVIDIA", architecture: "Turing (TU104)", compute_cores: 2560, memory_bus_width_bits: 256, memory_bandwidth_centi: 44800, fp32_tflops_centi: 906 }
    } else if i == 27 {
        GpuTableRow { pattern: "2070", vendor: "NVIDIA", architecture: "Turing (TU106)", compute_cores: 2304, memory_bus_width_bits: 256, memory_bandwidth_centi: 44800, fp32_tflops_centi: 746 }
    } else if i == 28 {
        GpuTableRow { pattern: "2060 super", vendor: "NVIDIA", architecture: "Turing (TU106)", compute_cores: 2176, memory_bus_width_bits: 256, memory_bandwidth_centi: 44800, fp32_tflops_centi: 720 }
    } else if i == 29 {
        GpuTableRow { pattern: "2060", vendor: "NVIDIA", architecture: "Turing (TU106)", compute_cores: 1920, memory_bus_width_bits: 192, memory_bandwidth_centi: 33600, fp32_tflops_centi: 645 }
    } else if i == 30 {
        GpuTableRow { pattern: "1660 ti", vendor: "NVIDIA", architecture: "Turing (TU116)", compute_cores: 1536, memory_bus_width_bits: 192, memory_bandwidth_centi: 28800, fp32_tflops_centi: 544 }
    } else if i == 31 {
        GpuTableRow { pattern: "1660 super", vendor: "NVIDIA", architecture: "Turing (TU116)", compute_cores: 1408, memory_bus_width_bits: 192, memory_bandwidth_centi: 33600, fp32_tflops_centi: 502 }
    } else if i == 32 {
        GpuTableRow { pattern: "1660", vendor: "NVIDIA", architecture: "Turing (TU116)", compute_cores: 1408, memory_bus_width_bits: 192, memory_bandwidth_centi: 19200, fp32_tflops_centi: 502 }
    } else if i == 33 {
        GpuTableRow { pattern: "1650 super", vendor: "NVIDIA", architecture: "Turing (TU116)", compute_cores: 1280, memory_bus_width_bits: 128, memory_bandwidth_centi: 19200, fp32_tflops_centi: 441 }
    } else if i == 34 {
        GpuTableRow { pattern: "1650", vendor: "NVIDIA", architecture: "Turing (TU117)", compute_cores: 896, memory_bus_width_bits: 128, memory_bandwidth_centi: 12800, fp32_tflops_centi: 298 }
    } else if i == 35 {
        GpuTableRow { pattern: "1080 ti", vendor: "NVIDIA", architecture: "Pascal (GP102)", compute_cores: 3584, memory_bus_width_bits: 352, memory_bandwidth_centi: 48440, fp32_tflops_centi: 1134 }
    } else if i == 36 {
        GpuTableRow { pattern: "1080", vendor: "NVIDIA", architecture: "Pascal (GP104)", compute_cores: 2560, memory_bus_width_bits: 256, memory_bandwidth_centi: 32000, fp32_tflops_centi: 887 }
    } else if i == 37 {
        GpuTableRow { pattern: "1070 ti", vendor: "NVIDIA", architecture: "Pascal (GP104)", compute_cores: 2432, memory_bus_width_bits: 256, memory_bandwidth_centi: 25600, fp32_tflops_centi: 819 }
    } else if i == 38 {
        GpuTableRow { pattern: "1070", vendor: "NVIDIA", architecture: "Pascal (GP104)", compute_cores: 1920, memory_bus_width_bits: 256, memory_bandwidth_centi: 25600, fp32_tflops_centi: 646 }
    } else if i == 39 {
        GpuTableRow { pattern: "1060", vendor: "NVIDIA", architecture: "Pascal (GP106)", compute_cores: 1280, memory_bus_width_bits: 192, memory_bandwidth_centi: 19200, fp32_tflops_centi: 437 }
    } else if i == 40 {
        GpuTableRow { pattern: "1050 ti", vendor: "NVIDIA", architecture: "Pascal (GP107)", compute_cores: 768, memory_bus_width_bits: 128, memory_bandwidth_centi: 11200, fp32_tflops_centi: 214 }
    } else if i == 41 {
        GpuTableRow { pattern: "1050", vendor: "NVIDIA", architecture: "Pascal (GP107)", compute_cores: 640, memory_bus_width_bits: 128, memory_bandwidth_centi: 11200, fp32_tflops_centi: 186 }
    } else if i == 42 {
        GpuTableRow { pattern: "980 ti", vendor: "NVIDIA", architecture: "Maxwell 2.0 (GM200)", compute_cores: 2816, memory_bus_width_bits: 384, memory_bandwidth_centi: 33650, fp32_tflops_centi: 606 }
    } else if i == 43 {
        GpuTableRow { pattern: "980", vendor: "NVIDIA", architecture: "Maxwell 2.0 (GM204)", compute_cores: 2048, memory_bus_width_bits: 256, memory_bandwidth_centi: 22400, fp32_tflops_centi: 461 }
    } else if i == 44 {
        GpuTableRow { pattern: "970", vendor: "NVIDIA", architecture: "Maxwell 2.0 (GM204)", compute_cores: 1664, memory_bus_width_bits: 256, memory_bandwidth_centi: 22400, fp32_tflops_centi: 349 }
    } else if i == 45 {
        GpuTableRow { pattern: "960", vendor: "NVIDIA", architecture: "Maxwell 2.0 (GM206)", compute_cores: 1024, memory_bus_width_bits: 128, memory_bandwidth_centi: 11200, fp32_tflops_centi: 230 }
    } else if i == 46 {
        GpuTableRow { pattern: "950", vendor: "NVIDIA", architecture: "Maxwell 2.0 (GM206)", compute_cores: 768, memory_bus_width_bits: 128, memory_bandwidth_centi: 10560, fp32_tflops_centi: 183 }
    } else if i == 47 {
        GpuTableRow { pattern: "750 ti", vendor: "NVIDIA", architecture: "Maxwell 1.0 (GM107)", compute_cores: 640, memory_bus_width_bits: 128, memory_bandwidth_centi: 8640, fp32_tflops_centi: 139 }
    } else if i == 48 {
        GpuTableRow { pattern: "a100", vendor: "NVIDIA", architecture: "Ampere Tensor Core (GA100)", compute_cores: 6912, memory_bus_width_bits: 5120, memory_bandwidth_centi: 203900, fp32_tflops_centi: 1950 }
    } else if i == 49 {
        GpuTableRow { pattern: "h100", vendor: "NVIDIA", architecture: "Hopper Tensor Core (GH100)", compute_cores: 14592, memory_bus_width_bits: 5120, memory_bandwidth_centi: 335000, fp32_tflops_centi: 6000 }
    } else if i == 50 {
        GpuTableRow { pattern: "l40", vendor: "NVIDIA", architecture: "Ada Lovelace Enterprise (AD102)", compute_cores: 18176, memory_bus_width_bits: 384, memory_bandwidth_centi: 86400, fp32_tflops_centi: 9050 }
    } else if i == 51 {
        GpuTableRow { pattern: "rtx a6000", vendor: "NVIDIA", architecture: "Ada/Ampere Workstation", compute_cores: 10752, memory_bus_width_bits: 384, memory_bandwidth_centi: 76800, fp32_tflops_centi: 3870 }
    } else if i == 52 {
        GpuTableRow { pattern: "rtx 6000", vendor: "NVIDIA", architecture: "Ada/Ampere Workstation", compute_cores: 10752, memory_bus_width_bits: 384, memory_bandwidth_centi: 76800, fp32_tflops_centi: 3870 }
    } else if i == 53 {
        GpuTableRow { pattern: "rtx a5000", vendor: "NVIDIA", architecture: "Ampere Workstation (GA102)", compute_cores: 8192, memory_bus_width_bits: 384, memory_bandwidth_centi: 76800, fp32_tflops_centi: 2780 }
    } else if i == 54 {
        GpuTableRow { pattern: "rtx 5000", vendor: "NVIDIA", architecture: "Ampere Workstation (GA102)", compute_cores: 8192, memory_bus_width_bits: 384, memory_bandwidth_centi: 76800, fp32_tflops_centi: 2780 }
    } else if i == 55 {
        GpuTableRow { pattern: "rtx a4000", vendor: "NVIDIA", architecture: "Ampere Workstation (GA104)", compute_cores: 6144, memory_bus_width_bits: 256, memory_bandwidth_centi: 44800, fp32_tflops_centi: 1920 }
    } else if i == 56 {
        GpuTableRow { pattern: "rtx 4000", vendor: "NVIDIA", architecture: "Ampere Workstation (GA104)", compute_cores: 6144, memory_bus_width_bits: 256, memory_bandwidth_centi: 44800, fp32_tflops_centi: 1920 }
    } else if i == 57 {
        GpuTableRow { pattern: "rtx a2000", vendor: "NVIDIA", architecture: "Ampere Workstation (GA106)", compute_cores: 3328, memory_bus_width_bits: 192, memory_bandwidth_centi: 28800, fp32_tflops_centi: 800 }
    } else if i == 58 {
        GpuTableRow { pattern: "rtx 2000", vendor: "NVIDIA", architecture: "Ampere Workstation (GA106)", compute_cores: 3328, memory_bus_width_bits: 192, memory_bandwidth_centi: 28800, fp32_tflops_centi: 800 }
    } else if i == 59 {
        GpuTableRow { pattern: "7900 xtx", vendor: "AMD", architecture: "RDNA 3 (Navi 31)", compute_cores: 6144, memory_bus_width_bits: 384, memory_bandwidth_centi: 96000, fp32_tflops_centi: 6140 }
    } else if i == 60 {
        GpuTableRow { pattern: "7900 xt", vendor: "AMD", architecture: "RDNA 3 (Navi 31)", compute_cores: 5376, memory_bus_width_bits: 320, memory_bandwidth_centi: 80000, fp32_tflops_centi: 5160 }
    } else if i == 61 {
        GpuTableRow { pattern: "7900 gre", vendor: "AMD", architecture: "RDNA 3 (Navi 31)", compute_cores: 5120, memory_bus_width_bits: 256, memory_bandwidth_centi: 57600, fp32_tflops_centi: 4600 }
    } else if i == 62 {
        GpuTableRow { pattern: "7800 xt", vendor: "AMD", architecture: "RDNA 3 (Navi 32)", compute_cores: 3840, memory_bus_width_bits: 256, memory_bandwidth_centi: 62400, fp32_tflops_centi: 3730 }
    } else if i == 63 {
        GpuTableRow { pattern: "7700 xt", vendor: "AMD", architecture: "RDNA 3 (Navi 32)", compute_cores: 3456, memory_bus_width_bits: 192, memory_bandwidth_centi: 43200, fp32_tflops_centi: 3520 }
    } else if i == 64 {
        GpuTableRow { pattern: "7600 xt", vendor: "AMD", architecture: "RDNA 3 (Navi 33)", compute_cores: 2048, memory_bus_width_bits: 128, memory_bandwidth_centi: 28800, fp32_tflops_centi: 2170 }
    } else if i == 65 {
        GpuTableRow { pattern: "7600", vendor: "AMD", architecture: "RDNA 3 (Navi 33)", compute_cores: 2048, memory_bus_width_bits: 128, memory_bandwidth_centi: 28800, fp32_tflops_centi: 2170 }
    } else if i == 66 {
        GpuTableRow { pattern: "890m", vendor: "AMD", architecture: "RDNA 3.5 (Strix Point SoC)", compute_cores: 1024, memory_bus_width_bits: 128, memory_bandwidth_centi: 12800, fp32_tflops_centi: 1120 }
    } else if i == 67 {
        GpuTableRow { pattern: "780m", vendor: "AMD", architecture: "RDNA 3 (Phoenix SoC)", compute_cores: 768, memory_bus_width_bits: 128, memory_bandwidth_centi: 10240, fp32_tflops_centi: 890 }
    } else if i == 68 {
        GpuTableRow { pattern: "6950 xt", vendor: "AMD", architecture: "RDNA 2 (Navi 21)", compute_cores: 5120, memory_bus_width_bits: 256, memory_bandwidth_centi: 57600, fp32_tflops_centi: 2300 }
    } else if i == 69 {
        GpuTableRow { pattern: "6900 xt", vendor: "AMD", architecture: "RDNA 2 (Navi 21)", compute_cores: 5120, memory_bus_width_bits: 256, memory_bandwidth_centi: 57600, fp32_tflops_centi: 2300 }
    } else if i == 70 {
        GpuTableRow { pattern: "6800 xt", vendor: "AMD", architecture: "RDNA 2 (Navi 21)", compute_cores: 4608, memory_bus_width_bits: 256, memory_bandwidth_centi: 51200, fp32_tflops_centi: 2070 }
    } else if i == 71 {
        GpuTableRow { pattern: "6800", vendor: "AMD", architecture: "RDNA 2 (Navi 21)", compute_cores: 4608, memory_bus_width_bits: 256, memory_bandwidth_centi: 51200, fp32_tflops_centi: 2070 }
    } else if i == 72 {
        GpuTableRow { pattern: "6750 xt", vendor: "AMD", architecture: "RDNA 2 (Navi 22)", compute_cores: 2560, memory_bus_width_bits: 192, memory_bandwidth_centi: 38400, fp32_tflops_centi: 1320 }
    } else if i == 73 {
        GpuTableRow { pattern: "6700 xt", vendor: "AMD", architecture: "RDNA 2 (Navi 22)", compute_cores: 2560, memory_bus_width_bits: 192, memory_bandwidth_centi: 38400, fp32_tflops_centi: 1320 }
    } else if i == 74 {
        GpuTableRow { pattern: "6700", vendor: "AMD", architecture: "RDNA 2 (Navi 22)", compute_cores: 2560, memory_bus_width_bits: 192, memory_bandwidth_centi: 38400, fp32_tflops_centi: 1320 }
    } else if i == 75 {
        GpuTableRow { pattern: "6650 xt", vendor: "AMD", architecture: "RDNA 2 (Navi 23)", compute_cores: 2048, memory_bus_width_bits: 128, memory_bandwidth_centi: 22400, fp32_tflops_centi: 1060 }
    } else if i == 76 {
        GpuTableRow { pattern: "6600 xt", vendor: "AMD", architecture: "RDNA 2 (Navi 23)", compute_cores: 2048, memory_bus_width_bits: 128, memory_bandwidth_centi: 22400, fp32_tflops_centi: 1060 }
    } else if i == 77 {
        GpuTableRow { pattern: "6600", vendor: "AMD", architecture: "RDNA 2 (Navi 23)", compute_cores: 2048, memory_bus_width_bits: 128, memory_bandwidth_centi: 22400, fp32_tflops_centi: 1060 }
    } else if i == 78 {
        GpuTableRow { pattern: "6500 xt", vendor: "AMD", architecture: "RDNA 2 (Navi 24)", compute_cores: 1024, memory_bus_width_bits: 64, memory_bandwidth_centi: 14400, fp32_tflops_centi: 570 }
    } else if i == 79 {
        GpuTableRow { pattern: "6400", vendor: "AMD", architecture: "RDNA 2 (Navi 24)", compute_cores: 1024, memory_bus_width_bits: 64, memory_bandwidth_centi: 14400, fp32_tflops_centi: 570 }
    } else if i == 80 {
        GpuTableRow { pattern: "680m", vendor: "AMD", architecture: "RDNA 2 (Rembrandt SoC)", compute_cores: 768, memory_bus_width_bits: 128, memory_bandwidth_centi: 10240, fp32_tflops_centi: 340 }
    } else if i == 81 {
        GpuTableRow { pattern: "5700 xt", vendor: "AMD", architecture: "RDNA 1 (Navi 10)", compute_cores: 2560, memory_bus_width_bits: 256, memory_bandwidth_centi: 44800, fp32_tflops_centi: 975 }
    } else if i == 82 {
        GpuTableRow { pattern: "5700", vendor: "AMD", architecture: "RDNA 1 (Navi 10)", compute_cores: 2560, memory_bus_width_bits: 256, memory_bandwidth_centi: 44800, fp32_tflops_centi: 975 }
    } else if i == 83 {
        GpuTableRow { pattern: "5600 xt", vendor: "AMD", architecture: "RDNA 1 (Navi 14)", compute_cores: 1536, memory_bus_width_bits: 128, memory_bandwidth_centi: 22400, fp32_tflops_centi: 520 }
    } else if i == 84 {
        GpuTableRow { pattern: "5500 xt", vendor: "AMD", architecture: "RDNA 1 (Navi 14)", compute_cores: 1536, memory_bus_width_bits: 128, memory_bandwidth_centi: 22400, fp32_tflops_centi: 520 }
    } else if i == 85 {
        GpuTableRow { pattern: "vega", vendor: "AMD", architecture: "GCN 5.0 (Vega Architecture)", compute_cores: 3840, memory_bus_width_bits: 2048, memory_bandwidth_centi: 102400, fp32_tflops_centi: 1340 }
    } else if i == 86 {
        GpuTableRow { pattern: "radeon vii", vendor: "AMD", architecture: "GCN 5.0 (Vega Architecture)", compute_cores: 3840, memory_bus_width_bits: 2048, memory_bandwidth_centi: 102400, fp32_tflops_centi: 1340 }
    } else if i == 87 {
        GpuTableRow { pattern: "590", vendor: "AMD", architecture: "GCN 4.0 (Polaris Architecture)", compute_cores: 2304, memory_bus_width_bits: 256, memory_bandwidth_centi: 25600, fp32_tflops_centi: 617 }
    } else if i == 88 {
        GpuTableRow { pattern: "580", vendor: "AMD", architecture: "GCN 4.0 (Polaris Architecture)", compute_cores: 2304, memory_bus_width_bits: 256, memory_bandwidth_centi: 25600, fp32_tflops_centi: 617 }
    } else if i == 89 {
        GpuTableRow { pattern: "570", vendor: "AMD", architecture: "GCN 4.0 (Polaris Architecture)", compute_cores: 2304, memory_bus_width_bits: 256, memory_bandwidth_centi: 25600, fp32_tflops_centi: 617 }
    } else if i == 90 {
        GpuTableRow { pattern: "480", vendor: "AMD", architecture: "GCN 4.0 (Polaris Architecture)", compute_cores: 2304, memory_bus_width_bits: 256, memory_bandwidth_centi: 25600, fp32_tflops_centi: 617 }
    } else if i == 91 {
        GpuTableRow { pattern: "470", vendor: "AMD", architecture: "GCN 4.0 (Polaris Architecture)", compute_cores: 2304, memory_bus_width_bits: 256, memory_bandwidth_centi: 25600, fp32_tflops_centi: 617 }
    } else if i == 92 {
        GpuTableRow { pattern: "b580", vendor: "Intel", architecture: "Xe2 Battlemage (BMG-G21)", compute_cores: 2560, memory_bus_width_bits: 192, memory_bandwidth_centi: 45600, fp32_tflops_centi: 1970 }
    } else if i == 93 {
        GpuTableRow { pattern: "b570", vendor: "Intel", architecture: "Xe2 Battlemage (BMG-G21)", compute_cores: 2304, memory_bus_width_bits: 160, memory_bandwidth_centi: 38000, fp32_tflops_centi: 1770 }
    } else if i == 94 {
        GpuTableRow { pattern: "a770", vendor: "Intel", architecture: "Xe-HPG Alchemist (ACM-G10)", compute_cores: 4096, memory_bus_width_bits: 256, memory_bandwidth_centi: 56000, fp32_tflops_centi: 1960 }
    } else if i == 95 {
        GpuTableRow { pattern: "a750", vendor: "Intel", architecture: "Xe-HPG Alchemist (ACM-G10)", compute_cores: 3584, memory_bus_width_bits: 256, memory_bandwidth_centi: 51200, fp32_tflops_centi: 1720 }
    } else if i == 96 {
        GpuTableRow { pattern: "a580", vendor: "Intel", architecture: "Xe-HPG Alchemist (ACM-G10)", compute_cores: 3072, memory_bus_width_bits: 256, memory_bandwidth_centi: 51200, fp32_tflops_centi: 1410 }
    } else if i == 97 {
        GpuTableRow { pattern: "a380", vendor: "Intel", architecture: "Xe-HPG Alchemist (ACM-G11)", compute_cores: 1024, memory_bus_width_bits: 96, memory_bandwidth_centi: 18600, fp32_tflops_centi: 410 }
    } else if i == 98 {
        GpuTableRow { pattern: "a310", vendor: "Intel", architecture: "Xe-HPG Alchemist (ACM-G11)", compute_cores: 1024, memory_bus_width_bits: 96, memory_bandwidth_centi: 18600, fp32_tflops_centi: 410 }
    } else if i == 99 {
        GpuTableRow { pattern: "140v", vendor: "Intel", architecture: "Xe2 Lunar Lake Arc Graphics", compute_cores: 1024, memory_bus_width_bits: 128, memory_bandwidth_centi: 13600, fp32_tflops_centi: 1040 }
    } else if i == 100 {
        GpuTableRow { pattern: "130v", vendor: "Intel", architecture: "Xe2 Lunar Lake Arc Graphics", compute_cores: 1024, memory_bus_width_bits: 128, memory_bandwidth_centi: 13600, fp32_tflops_centi: 1040 }
    } else if i == 101 {
        GpuTableRow { pattern: "arc", vendor: "Intel", architecture: "Xe-LPG Arc Graphics", compute_cores: 1024, memory_bus_width_bits: 128, memory_bandwidth_centi: 12000, fp32_tflops_centi: 460 }
    } else if i == 102 {
        GpuTableRow { pattern: "iris", vendor: "Intel", architecture: "Intel Iris Xe Graphics (96EU)", compute_cores: 768, memory_bus_width_bits: 128, memory_bandwidth_centi: 6800, fp32_tflops_centi: 222 }
    } else if i == 103 {
        GpuTableRow { pattern: "uhd 770", vendor: "Intel", architecture: "Intel UHD Graphics 700-series", compute_cores: 256, memory_bus_width_bits: 128, memory_bandwidth_centi: 5000, fp32_tflops_centi: 85 }
    } else if i == 104 {
        GpuTableRow { pattern: "uhd 750", vendor: "Intel", architecture: "Intel UHD Graphics 700-series", compute_cores: 256, memory_bus_width_bits: 128, memory_bandwidth_centi: 5000, fp32_tflops_centi: 85 }
    } else if i == 105 {
        GpuTableRow { pattern: "uhd 730", vendor: "Intel", architecture: "Intel UHD Graphics 700-series", compute_cores: 256, memory_bus_width_bits: 128, memory_bandwidth_centi: 5000, fp32_tflops_centi: 85 }
    } else if i == 106 {
        GpuTableRow { pattern: "uhd 630", vendor: "Intel", architecture: "Intel UHD Graphics 600-series", compute_cores: 192, memory_bus_width_bits: 64, memory_bandwidth_centi: 4160, fp32_tflops_centi: 46 }
    } else if i == 107 {
        GpuTableRow { pattern: "uhd 620", vendor: "Intel", architecture: "Intel UHD Graphics 600-series", compute_cores: 192, memory_bus_width_bits: 64, memory_bandwidth_centi: 4160, fp32_tflops_centi: 46 }
    } else if i == 108 {
        GpuTableRow { pattern: "uhd", vendor: "Intel", architecture: "Intel UHD Graphics 600-series", compute_cores: 192, memory_bus_width_bits: 64, memory_bandwidth_centi: 4160, fp32_tflops_centi: 46 }
    } else if i == 109 {
        GpuTableRow { pattern: "hd graphics", vendor: "Intel", architecture: "Intel HD Graphics Architecture", compute_cores: 192, memory_bus_width_bits: 64, memory_bandwidth_centi: 2560, fp32_tflops_centi: 38 }
    } else if i == 110 {
        GpuTableRow { pattern: "m4 max", vendor: "Apple", architecture: "Apple M4 Max GPU (40-Core)", compute_cores: 5120, memory_bus_width_bits: 512, memory_bandwidth_centi: 54600, fp32_tflops_centi: 4100 }
    } else if i == 111 {
        GpuTableRow { pattern: "m4 pro", vendor: "Apple", architecture: "Apple M4 Pro GPU (20-Core)", compute_cores: 2560, memory_bus_width_bits: 256, memory_bandwidth_centi: 27300, fp32_tflops_centi: 2050 }
    } else if i == 112 {
        GpuTableRow { pattern: "m4", vendor: "Apple", architecture: "Apple M4 GPU (10-Core)", compute_cores: 1280, memory_bus_width_bits: 128, memory_bandwidth_centi: 12000, fp32_tflops_centi: 1020 }
    } else if i == 113 {
        GpuTableRow { pattern: "m3 max", vendor: "Apple", architecture: "Apple M3 Max GPU (40-Core)", compute_cores: 5120, memory_bus_width_bits: 384, memory_bandwidth_centi: 40000, fp32_tflops_centi: 3580 }
    } else if i == 114 {
        GpuTableRow { pattern: "m3 pro", vendor: "Apple", architecture: "Apple M3 Pro GPU (18-Core)", compute_cores: 2304, memory_bus_width_bits: 192, memory_bandwidth_centi: 15000, fp32_tflops_centi: 1610 }
    } else if i == 115 {
        GpuTableRow { pattern: "m3", vendor: "Apple", architecture: "Apple M3 GPU (10-Core)", compute_cores: 1280, memory_bus_width_bits: 128, memory_bandwidth_centi: 10000, fp32_tflops_centi: 900 }
    } else if i == 116 {
        GpuTableRow { pattern: "m2 ultra", vendor: "Apple", architecture: "Apple M2 Ultra GPU (76-Core)", compute_cores: 9728, memory_bus_width_bits: 800, memory_bandwidth_centi: 80000, fp32_tflops_centi: 5400 }
    } else if i == 117 {
        GpuTableRow { pattern: "m2 max", vendor: "Apple", architecture: "Apple M2 Max GPU (38-Core)", compute_cores: 4864, memory_bus_width_bits: 512, memory_bandwidth_centi: 40000, fp32_tflops_centi: 2720 }
    } else if i == 118 {
        GpuTableRow { pattern: "m2 pro", vendor: "Apple", architecture: "Apple M2 Pro GPU (19-Core)", compute_cores: 2432, memory_bus_width_bits: 256, memory_bandwidth_centi: 20000, fp32_tflops_centi: 1360 }
    } else if i == 119 {
        GpuTableRow { pattern: "m2", vendor: "Apple", architecture: "Apple M2 GPU (10-Core)", compute_cores: 1280, memory_bus_width_bits: 128, memory_bandwidth_centi: 10000, fp32_tflops_centi: 720 }
    } else if i == 120 {
        GpuTableRow { pattern: "m1 ultra", vendor: "Apple", architecture: "Apple M1 Ultra GPU (64-Core)", compute_cores: 8192, memory_bus_width_bits: 800, memory_bandwidth_centi: 80000, fp32_tflops_centi: 4200 }
    } else if i == 121 {
        GpuTableRow { pattern: "m1 max", vendor: "Apple", architecture: "Apple M1 Max GPU (32-Core)", compute_cores: 4096, memory_bus_width_bits: 512, memory_bandwidth_centi: 40000, fp32_tflops_centi: 2180 }
    } else if i == 122 {
        GpuTableRow { pattern: "m1 pro", vendor: "Apple", architecture: "Apple M1 Pro GPU (16-Core)", compute_cores: 2048, memory_bus_width_bits: 256, memory_bandwidth_centi: 20000, fp32_tflops_centi: 1090 }
    } else if i == 123 {
        GpuTableRow { pattern: "m1", vendor: "Apple", architecture: "Apple M1 GPU (8-Core)", compute_cores: 1024, memory_bus_width_bits: 128, memory_bandwidth_centi: 6825, fp32_tflops_centi: 520 }
    } else if i == 124 {
        GpuTableRow { pattern: "apple", vendor: "Apple", architecture: "Apple M1 GPU (8-Core)", compute_cores: 1024, memory_bus_width_bits: 128, memory_bandwidth_centi: 6825, fp32_tflops_centi: 520 }
    } else if i == 125 {
        GpuTableRow { pattern: "snapdragon", vendor: "Qualcomm", architecture: "Adreno X1-85 GPU/NPU", compute_cores: 1536, memory_bus_width_bits: 128, memory_bandwidth_centi: 13500, fp32_tflops_centi: 460 }
    } else {
        GpuTableRow { pattern: "adreno", vendor: "Qualcomm", architecture: "Adreno X1-85 GPU/NPU", compute_cores: 1536, memory_bus_width_bits: 128, memory_bandwidth_centi: 13500, fp32_tflops_centi: 460 }
    }
}
/// The first row at or after `i` whose text occurs in `lower`.
pub open spec fn gpu_match_from(lower: Seq<char>, i: int) -> Option<int>
    decreases gpu_table_len() - i,
{
    if i < 0 || i >= gpu_table_len() {
        None
    } else if has_sub(lower, gpu_row(i).0) {
        Some(i)
    } else {
        gpu_match_from(lower, i + 1)
    }
}

/// The vendor named by the fallback: from the model name first, then the
/// reported vendor; NVIDIA, then AMD, then Intel.
pub open spec fn fallback_vendor(lower: Seq<char>, vendor_lower: Seq<char>) -> Seq<char> {
    let is_intel = has_sub(lower, "intel"@) || has_sub(vendor_lower, "intel"@);
    let is_amd = has_sub(lower, "amd"@) || has_sub(lower, "radeon"@) || has_sub(vendor_lower, "amd"@);
    let is_nvidia = has_sub(lower, "nvidia"@) || has_sub(lower, "geforce"@)
        || has_sub(vendor_lower, "nvidia"@);
    if is_nvidia {
        "NVIDIA"@
    } else if is_amd {
        "AMD"@
    } else if is_intel {
        "Intel"@
    } else {
        "DirectX GPU"@
    }
}

/// The profile of a GPU that no table row names, by vendor and video memory.
pub open spec fn gpu_fallback(lower: Seq<char>, vendor_lower: Seq<char>, vram_mb: u64) -> GpuProfileView {
    let is_intel = has_sub(lower, "intel"@) || has_sub(vendor_lower, "intel"@);
    let vendor = fallback_vendor(lower, vendor_lower);
    if is_intel && vram_mb <= 4096 {
        profile_view("Intel"@, "Intel Xe / UHD Integrated Graphics"@, 384, 128, 5500, 125)
    } else if vram_mb >= 16384 {
        profile_view(vendor, "High-Capacity Graphics Architecture"@, 5888, 256, 51200, 2400)
    } else if vram_mb >= 8192 {
        profile_view(vendor, "Performance Graphics Architecture"@, 3584, 256, 44800, 1250)
    } else if vram_mb >= 4096 {
        profile_view(vendor, "Mainstream Graphics Architecture"@, 1536, 128, 19200, 550)
    } else {
        profile_view(vendor, "Integrated System Graphics Architecture"@, 512, 128, 4800, 150)
    }
}

/// The hardware profile of the GPU called `name` with `vram_mb` of video
/// memory, reported by `vendor`.
pub open spec fn gpu_profile(name: Seq<char>, vram_mb: u64, vendor: Seq<char>) -> GpuProfileView {
    gpu_profile_of_lowered(lowercase(name), vram_mb, lowercase(vendor))
}

/// The profile for a lower-cased model name and vendor: the first table row
/// whose text occurs in the name, else the fallback.
pub open spec fn gpu_profile_of_lowered(lower: Seq<char>, vram_mb: u64, vendor_lower: Seq<char>) -> GpuProfileView {
    match gpu_match_from(lower, 0) {
        Some(i) => gpu_row(i).1,
        None => gpu_fallback(lower, vendor_lower, vram_mb),
    }
}

/// The profile of an ASCII model name and vendor, lower-cased character by
/// character.
pub open spec fn gpu_profile_ascii(name: Seq<char>, vram_mb: u64, vendor: Seq<char>) -> GpuProfileView {
    gpu_profile_of_lowered(ascii_lowercase(name), vram_mb, ascii_lowercase(vendor))
}

/// For ASCII names the lookup ignores case: the profile of a name is that
/// of its ASCII lower-case form, and that of its upper-case form with the
/// vendor upper-cased too.
pub proof fn lemma_gpu_profile_ignores_ascii_case(name: Seq<char>, vram_mb: u64, vendor: Seq<char>)
    requires
        is_ascii_text(name),
        is_ascii_text(vendor),
    ensures
        is_ascii_text(ascii_lowercase(name)),
        is_ascii_text(ascii_uppercase(name)),
        is_ascii_text(ascii_uppercase(vendor)),
        gpu_profile_ascii(name, vram_mb, vendor) == gpu_profile_ascii(ascii_lowercase(name), vram_mb, vendor),
        gpu_profile_ascii(name, vram_mb, vendor)
            == gpu_profile_ascii(ascii_uppercase(name), vram_mb, ascii_uppercase(vendor)),
{
    lemma_ascii_case_round_trip(name);
    lemma_ascii_case_round_trip(vendor);
}

/// The first table row whose text occurs in `lower`.
fn first_gpu_row(lower: &str) -> (r: Option<usize>)
    ensures
        r matches Some(i) ==> i < gpu_table_len() && Some(i as int) == gpu_match_from(lower@, 0),
        r is None ==> gpu_match_from(lower@, 0) is None,
{
    let mut i: usize = 0;
    while i < 127
        invariant
            i <= gpu_table_len(),
            gpu_match_from(lower@, 0) == gpu_match_from(lower@, i as int),
        decreases 127 - i,
    {
        let row = gpu_row_at(i);
        if contains(lower, row.pattern) {
            return Some(i);
        }
        i = i + 1;
    }
    None
}

fn profile_of_row(row: &GpuTableRow) -> (p: GpuProfile)
    ensures
        p@ == row.view(),
        p.fp32_tflops_centi == row.fp32_tflops_centi,
        p.memory_bandwidth_centi == row.memory_bandwidth_centi,
        p.compute_cores == row.compute_cores,
        p.memory_bus_width_bits == row.memory_bus_width_bits,
{
    GpuProfile {
        vendor: lit(row.vendor),
        architecture: lit(row.architecture),
        compute_cores: row.compute_cores,
        memory_bus_width_bits: row.memory_bus_width_bits,
        memory_bandwidth_centi: row.memory_bandwidth_centi,
        fp32_tflops_centi: row.fp32_tflops_centi,
    }
}

/// Resolves architecture, cores, memory bus width, bandwidth and baseline
/// FP32 throughput of a GPU from its model name, video memory and vendor.
pub fn resolve_gpu_hardware_profile(gpu_name: &str, vram_total_mb: u64, detected_vendor: &str) -> (p: GpuProfile)
    ensures
        p@ == gpu_profile(gpu_name@, vram_total_mb, detected_vendor@),
        is_ascii_text(gpu_name@) && is_ascii_text(detected_vendor@)
            ==> p@ == gpu_profile_ascii(gpu_name@, vram_total_mb, detected_vendor@),
        p.fp32_tflops_centi <= 13000,
        p.memory_bandwidth_centi <= 335000,
        p.compute_cores <= 24576,
        p.memory_bus_width_bits <= 5120,
{
    let lower = to_lower(gpu_name);
    match first_gpu_row(lower.as_str()) {
        Some(i) => {
            let row = gpu_row_at(i);
            profile_of_row(&row)
        },
        None => {
            let vendor_lower = to_lower(detected_vendor);
            let l = lower.as_str();
            let v = vendor_lower.as_str();
            let is_intel = contains(l, "intel") || contains(v, "intel");
            let is_amd = contains(l, "amd") || contains(l, "radeon") || contains(v, "amd");
            let is_nvidia = contains(l, "nvidia") || contains(l, "geforce") || contains(v, "nvidia");
            let vendor = if is_nvidia {
                lit("NVIDIA")
            } else if is_amd {
                lit("AMD")
            } else if is_intel {
                lit("Intel")
            } else {
                lit("DirectX GPU")
            };
            if is_intel && vram_total_mb <= 4096 {
                GpuProfile {
                    vendor: lit("Intel"),
                    architecture: lit("Intel Xe / UHD Integrated Graphics"),
                    compute_cores: 384,
                    memory_bus_width_bits: 128,
                    memory_bandwidth_centi: 5500,
                    fp32_tflops_centi: 125,
                }
            } else if vram_total_mb >= 16384 {
                GpuProfile {
                    vendor,
                    architecture: lit("High-Capacity Graphics Architecture"),
                    compute_cores: 5888,
                    memory_bus_width_bits: 256,
                    memory_bandwidth_centi: 51200,
                    fp32_tflops_centi: 2400,
                }
            } else if vram_total_mb >= 8192 {
                GpuProfile {
                    vendor,
                    architecture: lit("Performance Graphics Architecture"),
                    compute_cores: 3584,
                    memory_bus_width_bits: 256,
                    memory_bandwidth_centi: 44800,
                    fp32_tflops_centi: 1250,
                }
            } else if vram_total_mb >= 4096 {
                GpuProfile {
                    vendor,
                    architecture: lit("Mainstream Graphics Architecture"),
                    compute_cores: 1536,
                    memory_bus_width_bits: 128,
                    memory_bandwidth_centi: 19200,
                    fp32_tflops_centi: 550,
                }
            } else {
                GpuProfile {
                    vendor,
                    architecture: lit("Integrated System Graphics Architecture"),
                    compute_cores: 512,
                    memory_bus_width_bits: 128,
                    memory_bandwidth_centi: 4800,
                    fp32_tflops_centi: 150,
                }
            }
        },
    }
}

} // verus!
