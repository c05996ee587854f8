use oxidpulse::ai_bench::{
    apply_nvidia_smi, assemble_single_result, assemble_swarm_result, classify_ai_tier,
    classify_precision, compute_ai_composite_score, device_labels, gemm_figures, initial_telemetry,
    nvidia_smi_fields, plan_gpu_benchmark, precision_throughputs, project_diffusions, project_llms,
    select_target_gpu, should_query_nvidia_smi, GpuTelemetry,
};
use oxidpulse::gpu::resolve_gpu_hardware_profile;
use oxidpulse::model::GpuDeviceMetrics;

fn device(name: &str, vendor: &str, total: u64, used: u64, temp: i32, power: Option<u32>) -> GpuDeviceMetrics {
    GpuDeviceMetrics {
        name: name.to_string(),
        vendor: vendor.to_string(),
        driver_version: "1.0".to_string(),
        temperature_tenths: temp,
        memory_total_mb: total,
        memory_used_mb: used,
        memory_usage_percent_tenths: 0,
        core_clock_mhz: 1500,
        fan_speed_rpm: None,
        fan_speed_percent: None,
        power_usage_watts_tenths: power,
    }
}

#[test]
fn profile_of_known_models() {
    let p = resolve_gpu_hardware_profile("NVIDIA GeForce RTX 4090", 24576, "NVIDIA");
    assert_eq!(p.vendor, "NVIDIA");
    assert_eq!(p.architecture, "Ada Lovelace (AD102)");
    assert_eq!((p.compute_cores, p.memory_bus_width_bits), (16384, 384));
    assert_eq!((p.memory_bandwidth_centi, p.fp32_tflops_centi), (100800, 8258));

    let p = resolve_gpu_hardware_profile("NVIDIA GeForce RTX 4070 Ti SUPER", 16384, "NVIDIA");
    assert_eq!(p.architecture, "Ada Lovelace (AD103)");
    assert_eq!(p.compute_cores, 8448);

    let p = resolve_gpu_hardware_profile("AMD Radeon RX 7900 XTX", 24576, "AMD");
    assert_eq!(p.vendor, "AMD");
    assert_eq!(p.architecture, "RDNA 3 (Navi 31)");
    assert_eq!(p.fp32_tflops_centi, 6140);

    let p = resolve_gpu_hardware_profile("Apple M2 Max", 32768, "Apple");
    assert_eq!(p.architecture, "Apple M2 Max GPU (38-Core)");
    assert_eq!(p.memory_bandwidth_centi, 40000);

    let p = resolve_gpu_hardware_profile("NVIDIA GeForce RTX 5090", 32768, "NVIDIA");
    assert_eq!(p.architecture, "Blackwell (GB202)");
    assert_eq!(p.fp32_tflops_centi, 13000);
}

#[test]
fn profile_fallbacks_by_vendor_and_memory() {
    let p = resolve_gpu_hardware_profile("Intel(R) Graphics", 2048, "Intel Corporation");
    assert_eq!(p.vendor, "Intel");
    assert_eq!(p.architecture, "Intel Xe / UHD Integrated Graphics");
    assert_eq!((p.compute_cores, p.memory_bandwidth_centi, p.fp32_tflops_centi), (384, 5500, 125));

    let p = resolve_gpu_hardware_profile("Mystery Accelerator", 8192, "AMD");
    assert_eq!(p.vendor, "AMD");
    assert_eq!(p.architecture, "Performance Graphics Architecture");
    assert_eq!((p.compute_cores, p.memory_bus_width_bits, p.memory_bandwidth_centi), (3584, 256, 44800));

    let p = resolve_gpu_hardware_profile("Mystery Accelerator", 20000, "NVIDIA Corp");
    assert_eq!(p.vendor, "NVIDIA");
    assert_eq!(p.architecture, "High-Capacity Graphics Architecture");
    assert_eq!(p.fp32_tflops_centi, 2400);

    let p = resolve_gpu_hardware_profile("Generic Display", 4096, "Unknown");
    assert_eq!(p.vendor, "DirectX GPU");
    assert_eq!(p.architecture, "Mainstream Graphics Architecture");

    let p = resolve_gpu_hardware_profile("Generic Display", 1024, "Unknown");
    assert_eq!(p.architecture, "Integrated System Graphics Architecture");
    assert_eq!((p.memory_bandwidth_centi, p.fp32_tflops_centi), (4800, 150));
}

#[test]
fn precision_classes_and_throughputs() {
    let c = classify_precision("nvidia geforce rtx 4090", "Ada Lovelace (AD102)", "NVIDIA");
    assert!(!c.blackwell && c.ada_or_newer && !c.turing_or_ampere);
    let (fp16, fp8, int4) = precision_throughputs(&c, 8258);
    assert_eq!((fp16, fp8, int4), (16520, 33030, 66060));

    let c = classify_precision("nvidia geforce rtx 5080", "Blackwell (GB203)", "NVIDIA");
    assert!(c.blackwell && c.ada_or_newer);
    assert_eq!(precision_throughputs(&c, 7000), (14000, 56000, 112000));

    let c = classify_precision("nvidia geforce gtx 1080 ti", "Pascal (GP102)", "NVIDIA");
    assert!(!c.ada_or_newer && !c.turing_or_ampere && !c.apple);
    // FP16 keeps FP32, FP8 is 1.5x and INT4 2.5x, each rounded to a tenth.
    assert_eq!(precision_throughputs(&c, 1134), (1134, 1700, 2840));
}

#[test]
fn llm_projections_on_a_large_card() {
    let v = project_llms(false, 100800, 24576, 8258);
    assert_eq!(v.len(), 6);
    let expected: [(&str, u64, bool, u64, u64, u64, &str); 6] = [
        ("DeepSeek-R1 1.5B", 1894, true, 0, 1983, 36, "Optimal (100% GPU VRAM)"),
        ("DeepSeek-R1 7B", 4731, true, 0, 611, 90, "Optimal (100% GPU VRAM)"),
        ("LLaMA-3.1 8B", 5100, true, 0, 567, 96, "Optimal (100% GPU VRAM)"),
        ("Mistral 7B Instruct", 4516, true, 0, 672, 85, "Optimal (100% GPU VRAM)"),
        ("DeepSeek-R1 14B", 9421, true, 0, 276, 178, "Optimal (100% GPU VRAM)"),
        ("LLaMA-3.1 70B", 40755, false, 445, 30, 771, "Slow (Heavy System RAM Offload)"),
    ];
    for (p, e) in v.iter().zip(expected.iter()) {
        assert_eq!(p.model_name, e.0);
        assert_eq!(p.vram_required_mb, e.1);
        assert_eq!(p.fits_in_vram, e.2);
        assert_eq!(p.offload_to_ram_pct_tenths, e.3);
        assert_eq!(p.estimated_tokens_per_sec_tenths, e.4);
        assert_eq!(p.time_to_first_token_ms_tenths, e.5);
        assert_eq!(p.suitability_tag, e.6);
    }
    assert_eq!(v[0].context_window_supported, 32768);
    assert_eq!(v[5].context_window_supported, 2048);
}

#[test]
fn llm_projections_with_partial_offload() {
    let v = project_llms(false, 19200, 4096, 550);
    assert!(v[0].fits_in_vram);
    assert_eq!(v[1].offload_to_ram_pct_tenths, 203);
    assert_eq!(v[1].estimated_tokens_per_sec_tenths, 97);
    assert_eq!(v[1].suitability_tag, "Acceptable (Partial DDR RAM Offload)");
    assert_eq!(v[4].suitability_tag, "Slow (Heavy System RAM Offload)");
    let tiny = project_llms(false, 4800, 1024, 150);
    assert_eq!(tiny[5].offload_to_ram_pct_tenths, 950);
    assert_eq!(tiny[5].estimated_tokens_per_sec_tenths, 2);
}

#[test]
fn diffusion_projections() {
    let v = project_diffusions(false, 24576, 8258);
    assert_eq!(v.len(), 3);
    assert_eq!(v[0].model_name, "Stable Diffusion 1.5");
    assert_eq!((v[0].iterations_per_sec_tenths, v[0].time_per_image_sec_tenths), (586, 3));
    assert_eq!((v[1].iterations_per_sec_tenths, v[1].time_per_image_sec_tenths), (215, 2));
    assert_eq!((v[2].iterations_per_sec_tenths, v[2].time_per_image_sec_tenths), (1156, 0));
    assert!(v.iter().all(|d| d.fits_in_vram));
    let small = project_diffusions(true, 2048, 150);
    assert_eq!(small[0].model_name, "Stable Diffusion 1.5 (Parallel Batch)");
    assert!(!small[0].fits_in_vram && !small[1].fits_in_vram && small[2].fits_in_vram);
}

#[test]
fn composite_score_and_tiers() {
    assert_eq!(compute_ai_composite_score(8258, 100800, 24576), 36438);
    let (tier, rec) = classify_ai_tier(24576, 100800);
    assert_eq!(tier, "Ultra AI Frontier / 70B Quantized Workstation");
    assert!(rec.contains("32B-70B"));
    let (tier, rec) = classify_ai_tier(8192, 50420);
    assert_eq!(tier, "Solid 7B/8B Local AI Accelerator");
    assert!(rec.starts_with("Memory Bandwidth 504.2 GB/s"));
    let (tier, _) = classify_ai_tier(2048, 4800);
    assert_eq!(tier, "Lightweight AI / CPU-Offload Hybrid");
}

#[test]
fn target_selection_and_plan() {
    let ds = vec![
        device("A", "NVIDIA", 8192, 100, 400, None),
        device("B", "NVIDIA", 12288, 100, 400, None),
        device("C", "NVIDIA", 12288, 100, 400, None),
    ];
    assert_eq!(select_target_gpu("1", &ds), Some(1));
    assert_eq!(select_target_gpu("7", &ds), Some(0));
    // The last of the largest cards, as `max_by_key` picks.
    assert_eq!(select_target_gpu("auto", &ds), Some(2));
    assert_eq!(select_target_gpu("auto", &Vec::new()), None);

    let p = plan_gpu_benchmark(None, "auto", &ds);
    assert_eq!((p.duration_secs, p.swarm, p.target_index), (5, false, Some(2)));
    let p = plan_gpu_benchmark(Some(1), "all", &ds);
    assert_eq!((p.duration_secs, p.swarm), (3, true));
    let p = plan_gpu_benchmark(Some(500), "swarm", &vec![device("A", "x", 1, 0, 0, None)]);
    assert_eq!((p.duration_secs, p.swarm, p.target_index), (120, false, Some(0)));

    let labels = device_labels(&ds);
    assert_eq!(labels[1], "B (12288 MB)");
}

#[test]
fn nvidia_smi_reading() {
    let fields = nvidia_smi_fields("NVIDIA GeForce RTX 4070 , 560.94, 12282, 1024 , 11000, 45, 30.50, 35\r\nsecond line\n");
    assert_eq!(fields.len(), 8);
    assert_eq!(fields[0], "NVIDIA GeForce RTX 4070");
    assert_eq!(fields[3], "1024");
    assert_eq!(nvidia_smi_fields("").len(), 0);

    let t = initial_telemetry(&vec![device("NVIDIA GeForce RTX 4070", "NVIDIA", 12288, 2048, 450, None)], Some(0));
    assert!(should_query_nvidia_smi(&t));
    assert_eq!(t.live_power_tenths, Some(250));
    assert_eq!(t.vram_free_mb, 10240);
    let t = apply_nvidia_smi(t, &fields, Some(450), Some(305), Some(350));
    assert_eq!(t.gpu_name, "NVIDIA GeForce RTX 4070");
    assert_eq!(t.driver_version, "560.94");
    assert_eq!((t.vram_total_mb, t.vram_used_mb, t.vram_free_mb), (12282, 1024, 11000));
    assert_eq!(t.live_power_tenths, Some(305));
    assert_eq!(t.live_fan_speed_rpm, Some(1120));

    let short = vec!["x".to_string(), "y".to_string()];
    let t2 = apply_nvidia_smi(initial_telemetry(&Vec::new(), None), &short, Some(1), Some(1), Some(1));
    assert_eq!(t2.gpu_name, "DirectX Display Adapter");
    assert_eq!(t2.vram_total_mb, 4096);
    assert_eq!(t2.live_temp_tenths, 420);
}

#[test]
fn gemm_measurements() {
    assert_eq!(gemm_figures(10, 500_000), (500, 27));
    assert_eq!(gemm_figures(0, 0), (0, 0));
}

#[test]
fn single_gpu_result() {
    let t = GpuTelemetry {
        gpu_name: "NVIDIA GeForce RTX 4090".to_string(),
        detected_vendor: "NVIDIA".to_string(),
        driver_version: "560.81".to_string(),
        vram_total_mb: 24576,
        vram_used_mb: 2048,
        vram_free_mb: 22528,
        live_temp_tenths: 450,
        live_power_tenths: Some(1000),
        live_fan_speed_rpm: Some(1200),
    };
    let r = assemble_single_result(t, 5, 20, 1_000_000, &vec![450, 700, 860], &vec![3000, 3500], vec!["x".to_string()]);
    assert_eq!(r.architecture, "Ada Lovelace (AD102)");
    assert_eq!(r.fp16_tflops_centi, 16520);
    assert_eq!(r.precisions.len(), 4);
    assert_eq!(r.precisions[0].acceleration_type, "Native Compute Shaders (Ada Lovelace (AD102))");
    assert_eq!(r.precisions[1].acceleration_type, "Native Tensor / XMX Matrix Cores");
    assert!(!r.precisions[3].native_hardware_support);
    assert_eq!((r.initial_temp_tenths, r.peak_temp_tenths, r.avg_temp_tenths), (450, 860, 670));
    assert_eq!(r.avg_power_tenths, Some(3250));
    assert!(r.thermal_throttling_detected);
    assert_eq!(r.sustained_stability_tenths, 920);
    assert_eq!(r.matrix_gemm_time_ms_tenths, 500);
    assert_eq!(r.gpu_comparisons.len(), 7);
    assert_eq!(r.gpu_comparisons[0].gpu_name, "NVIDIA GeForce RTX 4090 (Your GPU)");
    assert_eq!(r.gpu_comparisons[0].vram_gb, 24);
    assert_eq!(r.gpu_comparisons[0].llama8b_tok_s_tenths, 567);
    assert_eq!(r.gpu_comparisons[6].gpu_name, "NVIDIA GeForce GTX 1080 Ti");
    assert_eq!(r.ai_composite_score, 36438);
    assert_eq!(r.gpu_count, 1);
    assert!(!r.is_combined_mode);
}

#[test]
fn swarm_result() {
    let ds = vec![
        device("NVIDIA GeForce RTX 4090", "NVIDIA", 24576, 1000, 500, Some(3000)),
        device("NVIDIA GeForce RTX 4080", "NVIDIA", 16384, 2000, 550, None),
    ];
    let r = assemble_swarm_result(&ds, 10, 4, 400_000, device_labels(&ds));
    assert_eq!(r.gpu_name, "Multi-GPU Swarm (2x GPUs Aggregate)");
    assert_eq!(r.architecture, "Distributed AI Tensor Engine (2 Devices)");
    assert_eq!((r.vram_total_mb, r.vram_used_mb, r.vram_free_mb), (40960, 3000, 37960));
    assert_eq!(r.compute_cores, 16384 + 9728);
    // (82.58 + 48.74) TFLOPS at 92% efficiency, rounded to a tenth.
    assert_eq!(r.fp32_tflops_centi, 12080);
    assert_eq!(r.fp16_tflops_centi, 24160);
    assert_eq!(r.memory_bandwidth_centi, 151782);
    assert_eq!(r.avg_temp_tenths, 525);
    assert_eq!(r.peak_temp_tenths, 575);
    assert_eq!(r.live_power_tenths, Some(3000));
    assert_eq!(r.multi_gpu_scaling_efficiency_pct, Some(92));
    assert_eq!(r.precisions[1].acceleration_type, "Multi-GPU Tensor Parallel Engine (92% Interconnect Efficiency)");
    assert_eq!(r.gpu_comparisons.len(), 5);
    assert_eq!(r.gpu_comparisons[0].gpu_name, "Multi-GPU Swarm (2x GPUs Pooled)");
    assert_eq!(r.gpu_comparisons[3].gpu_name, "Apple M3 Max");
    assert!(r.ai_recommendation.starts_with("รวมพลัง VRAM ทั้งหมด 40960 MB (40 GB)"));
    assert_eq!(r.device_list[0], "NVIDIA GeForce RTX 4090 (24576 MB)");
}

#[test]
fn gpu_lookup_ignores_ascii_case() {
    let cases = [
        ("NVIDIA GeForce RTX 4090", 24576u64, "NVIDIA"),
        ("AMD Radeon RX 7900 XTX", 24576, "Advanced Micro Devices"),
        ("Intel(R) UHD Graphics 770", 2048, "Intel Corporation"),
        ("Some Unknown Adapter", 8192, "nvidia"),
        ("Generic Display", 1024, "VendorX"),
    ];
    for (name, vram, vendor) in cases {
        let a = resolve_gpu_hardware_profile(name, vram, vendor);
        let lower = resolve_gpu_hardware_profile(&name.to_ascii_lowercase(), vram, vendor);
        let upper = resolve_gpu_hardware_profile(&name.to_ascii_uppercase(), vram, &vendor.to_ascii_uppercase());
        for b in [&lower, &upper] {
            assert_eq!(a.vendor, b.vendor);
            assert_eq!(a.architecture, b.architecture);
            assert_eq!(
                (a.compute_cores, a.memory_bus_width_bits, a.memory_bandwidth_centi, a.fp32_tflops_centi),
                (b.compute_cores, b.memory_bus_width_bits, b.memory_bandwidth_centi, b.fp32_tflops_centi)
            );
        }
    }
}
