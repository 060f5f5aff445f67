use embassy_nina::Scan;

fn collect(scan: &Scan) -> Vec<Vec<u8>> {
    let mut it = scan.iter();
    let mut out = Vec::new();
    while let Some(s) = it.next() {
        out.push(s.to_vec());
    }
    out
}

#[test]
fn scan_yields_each_ssid() {
    let buf = [3, b'a', b'b', b'c', 2, b'x', b'y', 0];
    let scan = Scan::new(&buf, 3);
    assert_eq!(scan.len(), 3);
    assert!(!scan.is_empty());
    assert_eq!(collect(&scan), vec![b"abc".to_vec(), b"xy".to_vec(), Vec::new()]);
}

#[test]
fn scan_stops_at_count_or_truncated_entry() {
    let buf = [3, b'a', b'b', b'c', 2, b'x', b'y'];
    assert_eq!(collect(&Scan::new(&buf, 1)), vec![b"abc".to_vec()]);
    let cut = [3, b'a', b'b', b'c', 5, b'x'];
    assert_eq!(collect(&Scan::new(&cut, 2)), vec![b"abc".to_vec()]);
    let empty = Scan::new(&[], 0);
    assert!(empty.is_empty());
    assert!(collect(&empty).is_empty());
}
