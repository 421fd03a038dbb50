use xokdinst::host::{
    get_master_cpu, get_master_mem, master_cpu, master_mem, HostWarning,
};

const GB: u64 = 1024 * 1024;

#[test]
fn memory_without_auto_size() {
    assert_eq!(get_master_mem(false, 1), (4096, None, None));
    assert_eq!(get_master_mem(false, u64::MAX), (4096, None, None));
}

#[test]
fn cpus_without_auto_size() {
    assert_eq!(get_master_cpu(false, 1), (2, None, None));
    assert_eq!(get_master_cpu(false, u32::MAX), (2, None, None));
}

#[test]
fn answers_do_not_count_without_auto_size() {
    assert_eq!(master_mem(false, 3, Ok(64 * GB)), (4096, None));
    assert_eq!(master_mem(false, 1, Err("gone".to_string())), (4096, None));
    assert_eq!(master_cpu(false, 1, Ok(64)), (2, None));
    assert_eq!(master_cpu(false, 3, Err("gone".to_string())), (2, None));
}

#[test]
fn memory_share_of_the_host() {
    assert_eq!(master_mem(true, 1, Ok(32 * GB)), (26 * 1024, None));
    assert_eq!(master_mem(true, 3, Ok(32 * GB)), (18 * 1024, None));
    assert_eq!(master_mem(true, 1, Ok(32 * GB + 1023)), (26 * 1024, None));
}

#[test]
fn memory_share_has_a_minimum() {
    assert_eq!(master_mem(true, 1, Ok(10 * GB)), (4096, None));
    assert_eq!(master_mem(true, 1, Ok(9 * GB)), (4096, None));
    assert_eq!(master_mem(true, 1, Ok(5 * GB)), (4096, None));
    assert_eq!(master_mem(true, 3, Ok(0)), (4096, None));
    assert_eq!(master_mem(true, u64::MAX, Ok(u64::MAX)), (4096, None));
}

#[test]
fn cpu_share_of_the_host() {
    assert_eq!(master_cpu(true, 1, Ok(16)), (14, None));
    assert_eq!(master_cpu(true, 3, Ok(16)), (10, None));
}

#[test]
fn cpu_share_has_a_minimum() {
    assert_eq!(master_cpu(true, 1, Ok(4)), (2, None));
    assert_eq!(master_cpu(true, 3, Ok(4)), (2, None));
    assert_eq!(master_cpu(true, u32::MAX, Ok(u32::MAX)), (2, None));
}

#[test]
fn larger_cluster_gets_a_smaller_share() {
    assert!(master_mem(true, 3, Ok(64 * GB)).0 <= master_mem(true, 1, Ok(64 * GB)).0);
    assert!(master_cpu(true, 3, Ok(64)).0 <= master_cpu(true, 1, Ok(64)).0);
}

#[test]
fn unknown_host_falls_back_with_a_warning() {
    let (mem, warning) = master_mem(true, 1, Err("IO error: gone".to_string()));
    assert_eq!(mem, 4096);
    assert_eq!(
        warning.unwrap().text(),
        "Failed to get total host memory, falling back to 4096MB: IO error: gone"
    );
    let (cpus, warning) = master_cpu(true, 3, Err("System is not supported".to_string()));
    assert_eq!(cpus, 2);
    assert_eq!(
        warning.unwrap().text(),
        "Failed to get total host cpu, falling back to 2cpu: System is not supported"
    );
}

#[test]
fn larger_host_gives_a_larger_share() {
    assert!(master_mem(true, 3, Ok(32 * GB)).0 <= master_mem(true, 3, Ok(64 * GB)).0);
    assert!(master_cpu(true, 3, Ok(16)).0 <= master_cpu(true, 3, Ok(64)).0);
}

#[test]
fn running_host_is_asked() {
    for size in [1, 3] {
        let (mem, warning, memory) = get_master_mem(true, size);
        assert!(mem >= 4096);
        assert!(warning.is_none() || matches!(warning, Some(HostWarning::Memory(_))));
        assert_eq!((mem, warning), master_mem(true, size, memory.unwrap()));
    }
    for size in [1, 3] {
        let (cpu, warning, cpus) = get_master_cpu(true, size);
        let cpus = cpus.unwrap();
        if let Ok(n) = sys_info::cpu_num() {
            assert_eq!(cpus, Ok(n));
        }
        assert_eq!((cpu, warning), master_cpu(true, size, cpus));
    }
}
