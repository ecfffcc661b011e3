use sonar::transcription::{
    check_load_request, compute_devices, initial_prompt, is_resident, resolve_compute_device, Accelerator, Backend,
    BackendDevice, ComputeDevice, InferenceConfig,
};

#[test]
fn parses_accelerators_case_insensitively() {
    assert_eq!(Accelerator::parse("AUTO"), Ok(Accelerator::Auto));
    assert_eq!(Accelerator::parse(" cpu "), Ok(Accelerator::Cpu));
    assert_eq!(Accelerator::parse("gpu"), Ok(Accelerator::Gpu));
    assert!(Accelerator::parse("cuda").is_err());
}

#[test]
fn invalid_accelerator_names_the_value() {
    assert_eq!(
        Accelerator::parse(" Cuda "),
        Err("invalid accelerator ' Cuda '; expected auto, cpu, or gpu".to_owned())
    );
    assert_eq!(Accelerator::parse("\u{3000}Gpu\t"), Ok(Accelerator::Gpu));
}

#[test]
fn gpu_backend_depends_on_platform() {
    assert_eq!(Accelerator::Gpu.backend(true), Backend::Metal);
    assert_eq!(Accelerator::Gpu.backend(false), Backend::Vulkan);
    assert_eq!(Accelerator::Cpu.backend(true), Backend::Cpu);
    assert_eq!(Accelerator::Auto.backend(false), Backend::Auto);
}

fn device(id: &str, index: usize) -> ComputeDevice {
    ComputeDevice { id: id.to_owned(), index, name: "n".to_owned(), kind: "GPU".to_owned(), memory: 1 }
}

#[test]
fn resolves_persisted_compute_devices() {
    let devices = vec![device("a", 3), device("b", 5), device("b", 9)];
    assert_eq!(resolve_compute_device("", &devices), Ok(0));
    assert_eq!(resolve_compute_device("b", &devices), Ok(5));
    assert_eq!(
        resolve_compute_device("c", &devices),
        Err("selected compute device 'c' is unavailable".to_owned())
    );
    let huge = vec![device("x", usize::MAX)];
    assert_eq!(resolve_compute_device("x", &huge), Err("compute device index exceeds i32 range".to_owned()));
}

#[test]
fn backend_devices_without_index_are_skipped() {
    let devices = vec![
        BackendDevice {
            index: Some(1),
            device_id: None,
            kind: "GPU".to_owned(),
            name: "vk0".to_owned(),
            description: "Radeon".to_owned(),
            memory_total: 8,
        },
        BackendDevice {
            index: None,
            device_id: Some("cpu".to_owned()),
            kind: "CPU".to_owned(),
            name: "cpu".to_owned(),
            description: String::new(),
            memory_total: 0,
        },
        BackendDevice {
            index: Some(2),
            device_id: Some("uuid-2".to_owned()),
            kind: "GPU".to_owned(),
            name: "vk1".to_owned(),
            description: String::new(),
            memory_total: 4,
        },
    ];
    let out = compute_devices(&devices);
    assert_eq!(out.len(), 2);
    assert_eq!(out[0].id, "GPU:vk0");
    assert_eq!(out[0].name, "Radeon");
    assert_eq!(out[0].index, 1);
    assert_eq!(out[1].id, "uuid-2");
    assert_eq!(out[1].name, "vk1");
    assert_eq!(out[1].memory, 4);
}

#[test]
fn load_requests_are_checked() {
    let gpu = InferenceConfig { accelerator: Accelerator::Gpu, gpu_device: 1 };
    assert_eq!(
        check_load_request(InferenceConfig { accelerator: Accelerator::Cpu, gpu_device: -1 }, Backend::Cpu, true),
        Err("gpu device index must be 0 (auto) or a positive registry index".to_owned())
    );
    assert_eq!(
        check_load_request(gpu, Backend::Vulkan, false),
        Err("requested GPU backend Vulkan is unavailable".to_owned())
    );
    assert_eq!(check_load_request(gpu, Backend::Vulkan, true), Ok(()));
    assert!(is_resident(Some("base"), Some(gpu), true, "base", gpu));
    assert!(!is_resident(Some("base"), Some(gpu), false, "base", gpu));
    assert!(!is_resident(Some("base"), Some(InferenceConfig::default()), true, "base", gpu));
    assert!(!is_resident(None, Some(gpu), true, "base", gpu));
}

#[test]
fn prompt_joins_trimmed_custom_words() {
    let words = vec![" Sonar ".to_owned(), "   ".to_owned(), "ChargeBee".to_owned()];
    assert_eq!(initial_prompt(&words), "Sonar, ChargeBee");
    assert_eq!(initial_prompt(&[]), "");
}
