use agc_rs::contig::full_contig_range;

#[test]
fn whole_contig_spans_zero_to_last_base() {
    assert_eq!(full_contig_range("s1", "chr1", 1000), Ok((0, 999)));
    assert_eq!(full_contig_range("s1", "chr1", 1), Ok((0, 0)));
}

#[test]
fn absent_contig_is_reported() {
    assert_eq!(
        full_contig_range("s1", "chr9", 0),
        Err("Contig chr9@s1 not found or has zero length".to_string())
    );
    assert_eq!(
        full_contig_range("sample", "c", -1),
        Err("Contig c@sample not found or has zero length".to_string())
    );
}

#[test]
fn longest_addressable_contig_ends_at_i32_max() {
    assert_eq!(full_contig_range("s", "c", 2147483648), Ok((0, i32::MAX)));
}

#[test]
fn overlong_contig_is_refused() {
    assert_eq!(
        full_contig_range("s1", "chr1", 2147483649),
        Err("Contig chr1@s1 is too long for a 32-bit position range".to_string())
    );
    assert_eq!(
        full_contig_range("s1", "chr1", i64::MAX),
        Err("Contig chr1@s1 is too long for a 32-bit position range".to_string())
    );
}
