use throughput::units::{byte_to_mem_units, scale_amount, MemUnit};

#[test]
fn below_one_kibibyte_stays_in_bytes() {
    assert_eq!(byte_to_mem_units(1023), (1023000, MemUnit::Bytes));
    assert_eq!(byte_to_mem_units(0), (0, MemUnit::Bytes));
}

#[test]
fn one_kibibyte() {
    assert_eq!(byte_to_mem_units(1024), (1000, MemUnit::KB));
}

#[test]
fn one_and_a_half_kibibytes() {
    assert_eq!(byte_to_mem_units(1536), (1500, MemUnit::KB));
}

#[test]
fn three_mebibytes() {
    assert_eq!(byte_to_mem_units(1024 * 1024 * 3), (3000, MemUnit::MB));
}

#[test]
fn gibibytes_and_tebibytes() {
    assert_eq!(byte_to_mem_units(1024 * 1024 * 1024), (1000, MemUnit::GB));
    assert_eq!(byte_to_mem_units(1024u64.pow(4) * 2), (2000, MemUnit::TB));
    assert_eq!(byte_to_mem_units(u64::MAX), (16777216000, MemUnit::TB));
}

#[test]
fn values_round_to_three_decimals() {
    // 5000 / 1024 = 4.8828125
    assert_eq!(byte_to_mem_units(5000), (4883, MemUnit::KB));
    // 9765.625 thousandths of a KB
    assert_eq!(scale_amount(10_000_000), (9766, MemUnit::KB));
    // ties go to the even neighbour: 1002.5 to 1002, 1003.5 to 1004
    assert_eq!(scale_amount(1_024_000 + 2560), (1002, MemUnit::KB));
    assert_eq!(scale_amount(1_024_000 + 3584), (1004, MemUnit::KB));
}

#[test]
fn unit_names() {
    assert_eq!(MemUnit::Bytes.name(), "Bytes");
    assert_eq!(MemUnit::KB.name(), "KB");
    assert_eq!(MemUnit::MB.name(), "MB");
    assert_eq!(MemUnit::GB.name(), "GB");
    assert_eq!(MemUnit::TB.name(), "TB");
}
