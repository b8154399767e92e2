use rocm_rs::hip::device::{Device, DeviceProperties};
use rocm_rs::hip::memory::PendingCopy;
use rocm_rs::hip::utils::{
    calculate_grid_1d, calculate_grid_2d, calculate_grid_3d, is_hip_available, next_multiple,
    print_devices_info, Dim3, Version,
};
use rocm_rs::hip::Error;
use rocm_rs::hip::memory_ext::{all_pairs_ordered, check_sorted_pairs, sort_schedule};
use rocm_rs::rocarray::sorting::{partial_sort_plan, PartialSortPlan};

#[test]
fn grids_cover_the_problem() {
    let g = calculate_grid_1d(1000, 256);
    assert_eq!((g.x, g.y, g.z), (4, 1, 1));
    let g = calculate_grid_1d(0, 256);
    assert_eq!(g.x, 0);
    let g = calculate_grid_2d(17, 16, 16, 16);
    assert_eq!((g.x, g.y, g.z), (2, 1, 1));
    let g = calculate_grid_3d(10, 20, 30, 4, 8, 16);
    assert_eq!((g.x, g.y, g.z), (3, 3, 2));
    let d = Dim3::new_2d(5, 6);
    assert_eq!((d.x, d.y, d.z), (5, 6, 1));
    let d = Dim3::new_3d(5, 6, 7);
    assert_eq!((d.x, d.y, d.z), (5, 6, 7));
    let d = Dim3::from(9u32);
    assert_eq!((d.x, d.y, d.z), (9, 1, 1));
    let d = Dim3::from((2u32, 3u32));
    assert_eq!((d.x, d.y, d.z), (2, 3, 1));
    let d = Dim3::from((2u32, 3u32, 4u32));
    assert_eq!((d.x, d.y, d.z), (2, 3, 4));
}

#[test]
fn next_multiple_rounds_up() {
    assert_eq!(next_multiple(0, 8), 0);
    assert_eq!(next_multiple(1, 8), 8);
    assert_eq!(next_multiple(16, 8), 16);
    assert_eq!(next_multiple(17, 8), 24);
}

#[test]
fn versions_decode() {
    let v = Version::from_encoded(60342134);
    assert_eq!((v.major, v.minor, v.patch), (6034, 21, 34));
    let v = Version::driver(Ok(50422)).unwrap();
    assert_eq!((v.major, v.minor, v.patch), (5, 4, 22));
    assert_eq!(v.to_string(), "5.4.22");
    let v = Version::runtime(Ok(-10203)).unwrap();
    assert_eq!((v.major, v.minor, v.patch), (-1, -2, -3));
    assert!(Version::runtime(Err(Error::new(3))).is_err());
}

#[test]
fn devices() {
    let d = Device::new(1, 2).unwrap();
    assert_eq!(d.id(), 1);
    assert!(Device::new(2, 2).unwrap_err().is_invalid_device());
    assert!(Device::new(-1, 2).is_err());
    assert!(is_hip_available(Ok(1)));
    assert!(!is_hip_available(Ok(0)));
    assert!(!is_hip_available(Err(Error::new(100))));
    assert_eq!(PendingCopy::new(vec![1, 2]).synchronize(), vec![1, 2]);
}

#[test]
fn device_report() {
    let p = DeviceProperties {
        name: String::from("gfx1100"),
        total_global_mem: 3 * 1024 * 1024 + 5,
        shared_mem_per_block: 65536,
        regs_per_block: 65536,
        warp_size: 32,
        max_threads_per_block: 1024,
        max_threads_dim: [1024, 1024, 1024],
        max_grid_size: [2147483647, 65536, 65536],
        clock_rate: 2500000,
        memory_clock_rate: 1249000,
        memory_bus_width: 384,
        total_const_mem: 2147483647,
        major: 11,
        minor: 0,
        multi_processor_count: 48,
        l2_cache_size: 6291456,
        max_threads_per_multiprocessor: 2048,
        compute_mode: 0,
        integrated: 0,
        can_map_host_memory: 1,
    };
    let text = print_devices_info(Ok(1), &[Ok(p.clone())]).unwrap();
    let expected = [
        "Found 1 HIP device(s)\n",
        "\nDevice 0: gfx1100\n",
        "  Compute capability: 11.0\n",
        "  Total memory: 3 MB\n",
        "  Clock rate: 2500 MHz\n",
        "  Multi-processor count: 48\n",
        "  Max threads per block: 1024\n",
        "  Max threads per multiprocessor: 2048\n",
        "  Warp size: 32\n",
        "  Max dimensions of a grid: [2147483647, 65536, 65536]\n",
        "  Max dimensions of a block: [1024, 1024, 1024]\n",
        "  Shared memory per block: 64 KB\n",
        "  Registers per block: 65536\n",
        "  L2 cache size: 6144 KB\n",
        "  Memory clock rate: 1249 MHz\n",
        "  Memory bus width: 384 bits\n",
        "  Integrated: 0\n",
        "  Can map host memory: 1\n",
    ]
    .concat();
    assert_eq!(text, expected);
    assert_eq!(print_devices_info(Ok(0), &[]).unwrap(), "Found 0 HIP device(s)\n");
    assert_eq!(print_devices_info(Ok(-1), &[]).unwrap(), "Found -1 HIP device(s)\n");
    assert_eq!(print_devices_info(Err(Error::new(100)), &[]).unwrap_err().code(), 100);
    let failed = print_devices_info(Ok(3), &[Ok(p.clone()), Err(Error::new(101)), Err(Error::new(1))]);
    assert_eq!(failed.unwrap_err().code(), 101);
}

#[test]
fn sort_schedule_of_even_and_odd_counts() {
    let s = sort_schedule(6);
    assert_eq!((s.rounds, s.even_grid.x, s.odd_grid.x, s.block.x), (3, 3, 2, 1));
    let s = sort_schedule(3);
    assert_eq!((s.rounds, s.even_grid.x, s.odd_grid.x), (2, 1, 1));
    let s = sort_schedule(7);
    assert_eq!((s.rounds, s.even_grid.x, s.odd_grid.x), (4, 3, 3));
    let s = sort_schedule(1);
    assert_eq!((s.rounds, s.even_grid.x, s.odd_grid.x), (0, 0, 0));
}

#[test]
fn sortedness_check_plan() {
    assert_eq!(check_sorted_pairs(8).unwrap(), 7);
    assert_eq!(check_sorted_pairs(0).unwrap_err().code(), 2);
    assert!(all_pairs_ordered(&[true, true, true]));
    assert!(!all_pairs_ordered(&[true, false, true]));
    assert!(all_pairs_ordered(&[]));
}

#[test]
fn partial_sort_plans() {
    assert_eq!(partial_sort_plan(9, 3), PartialSortPlan::FirstK { len: 9, k: 3 });
    assert_eq!(partial_sort_plan(5, 5), PartialSortPlan::Full);
    assert_eq!(partial_sort_plan(5, 8), PartialSortPlan::Full);
}

/// Runs the schedule's rounds on the host the way the two kernels do.
fn run_schedule(data: &mut Vec<i64>, ascending: bool) {
    let s = sort_schedule(data.len() as u32);
    let order = |a: i64, b: i64| if ascending { a > b } else { a < b };
    for _ in 0..s.rounds {
        for k in 0..s.even_grid.x as usize {
            let (i, j) = (2 * k, 2 * k + 1);
            if order(data[i], data[j]) {
                data.swap(i, j);
            }
        }
        for k in 0..s.odd_grid.x as usize {
            let (i, j) = (2 * k + 1, 2 * k + 2);
            if order(data[i], data[j]) {
                data.swap(i, j);
            }
        }
    }
}

#[test]
fn sort_schedule_sorts_odd_and_even_lengths() {
    let mut v = vec![3, 2, 1];
    run_schedule(&mut v, true);
    assert_eq!(v, vec![1, 2, 3]);
    let mut v = vec![5, 2, 8, 1, 9, 3];
    run_schedule(&mut v, true);
    assert_eq!(v, vec![1, 2, 3, 5, 8, 9]);
    let mut v = vec![5, 2, 8, 1, 9, 3];
    run_schedule(&mut v, false);
    assert_eq!(v, vec![9, 8, 5, 3, 2, 1]);
    let mut v = vec![7, 6, 5, 4, 3, 2, 1];
    run_schedule(&mut v, true);
    assert_eq!(v, vec![1, 2, 3, 4, 5, 6, 7]);
    let mut v = vec![4];
    run_schedule(&mut v, true);
    assert_eq!(v, vec![4]);
}
