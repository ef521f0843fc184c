use omywall::metrics::{cpu_busy, cpu_counters, gpu_busy_files, gpu_label, memory_usage, nvidia_reading, NvidiaReading};

#[test]
fn cpu_counters_from_proc_stat() {
    let stat = "cpu  100 5 50 1000 20 3 2 0 0 0\ncpu0 1 2 3 4\n";
    assert_eq!(cpu_counters(stat), Some((1020, 1180)));
    assert_eq!(cpu_counters("cpu 1 2 3\n"), None);
    assert_eq!(cpu_counters(""), None);
    assert_eq!(cpu_counters("cpu 1 x 3 4"), Some((4, 8)));
    assert_eq!(cpu_busy((1000, 2000), (1100, 2400)), (300, 400));
    assert_eq!(cpu_busy((1000, 2000), (900, 1500)), (0, 0));
}

#[test]
fn memory_from_meminfo() {
    let m = "MemTotal:       16384000 kB\nMemFree:  100 kB\nMemAvailable:    8192000 kB\n";
    assert_eq!(memory_usage(m), (16000, 8000));
    assert_eq!(memory_usage("MemAvailable: 5000 kB\n"), (0, 0));
}

#[test]
fn nvidia_smi_output() {
    assert_eq!(
        nvidia_reading(" 37, 2048, NVIDIA GeForce RTX 3060 \n"),
        Some(NvidiaReading { usage_text: "37".to_string(), vram_used_mb: 2048, name: Some("NVIDIA GeForce RTX 3060".to_string()) })
    );
    assert_eq!(nvidia_reading("5, x"), Some(NvidiaReading { usage_text: "5".to_string(), vram_used_mb: 0, name: None }));
    assert_eq!(nvidia_reading("garbage"), None);
    assert_eq!(gpu_label(None, Some("Intel".to_string())), "Intel");
    assert_eq!(gpu_label(None, None), "Auto Graphics Processing Unit");
    assert_eq!(gpu_busy_files()[3], "/sys/class/drm/card3/device/gpu_busy_percent");
}
