use tpc_graph_exec_rs::format_size_fixed_int;
use tpc_graph_exec_rs::node::percent_of;
use tpc_graph_exec_rs::node::DataSize;

#[test]
fn format_zero_bytes() {
    assert_eq!(format_size_fixed_int(0), "   0 B");
}

#[test]
fn format_bytes_below_kib() {
    assert_eq!(format_size_fixed_int(1023), "1023 B");
    assert_eq!(format_size_fixed_int(7), "   7 B");
}

#[test]
fn format_kib_boundary() {
    assert_eq!(format_size_fixed_int(1024), "   1 KiB");
    assert_eq!(format_size_fixed_int(1536), "   1 KiB");
    assert_eq!(format_size_fixed_int(1024 * 1023), "1023 KiB");
}

#[test]
fn format_mib_and_gib() {
    assert_eq!(format_size_fixed_int(10 * 1024 * 1024), "  10 MiB");
    assert_eq!(format_size_fixed_int(3 * 1024 * 1024 * 1024), "   3 GiB");
}

#[test]
fn format_largest_value() {
    assert_eq!(format_size_fixed_int(u64::MAX), "17179869183 GiB");
}

#[test]
fn data_size_primitives() {
    assert_eq!(5u8.data_size(), 1);
    assert_eq!(5u16.data_size(), 2);
    assert_eq!(5u32.data_size(), 4);
    assert_eq!(5u64.data_size(), 8);
    assert_eq!(5u128.data_size(), 16);
    assert_eq!((-5i8).data_size(), 1);
    assert_eq!((-5i16).data_size(), 2);
    assert_eq!((-5i32).data_size(), 4);
    assert_eq!((-5i64).data_size(), 8);
    assert_eq!((-5i128).data_size(), 16);
    assert_eq!(true.data_size(), 1);
    assert_eq!(().data_size(), 0);
}

#[test]
fn data_size_vectors() {
    let v: Vec<u32> = vec![1, 2, 3];
    assert_eq!(v.data_size(), 12);
    let w: Vec<u64> = Vec::new();
    assert_eq!(w.data_size(), 0);
    let x: Vec<u8> = vec![0; 100];
    assert_eq!(x.data_size(), 100);
}

#[test]
fn percent_formula() {
    assert_eq!(percent_of(25, 100), 25);
    assert_eq!(percent_of(1, 3), 33);
    assert_eq!(percent_of(0, 0), 0);
    assert_eq!(percent_of(5, 5), 100);
    assert_eq!(percent_of(0, 7), 0);
    assert_eq!(percent_of(u64::MAX, u64::MAX as u128), 100);
}
