use rfind::filters::filesize::{SizeComparison, SizeFilter, SizeUnit};
use rfind::filters::filetype::TypeFilter;
use rfind::filters::time::{TimeComparison, TimeFilter, TimeUnit};
use rfind::permissions::{
    get_permission_string, has_special_mode, OwnershipFilter, PermissionFilter, PermissionMode,
    PermissionType, SpecialMode,
};

#[test]
fn test_permission_filter_parsing() {
    let filter = PermissionFilter::parse("u+x").unwrap();
    assert!(matches!(filter.mode, PermissionMode::User));
    assert!(matches!(filter.perm_type, PermissionType::Execute));
    assert!(filter.expected);

    assert!(PermissionFilter::parse("invalid").is_err());
}

#[test]
fn test_size_filter_units() {
    assert_eq!(SizeFilter::parse("1M").unwrap().to_bytes(), 1048576);
    assert_eq!(SizeFilter::parse("1k").unwrap().to_bytes(), 1024);
    assert_eq!(SizeFilter::parse("7c").unwrap().to_bytes(), 7);
    assert_eq!(SizeFilter::parse("2G").unwrap().to_bytes(), 2147483648);
}

#[test]
fn test_size_filter_parse_fields() {
    let f = SizeFilter::parse("+500k").unwrap();
    assert_eq!(f.comparison, SizeComparison::Greater);
    assert_eq!(f.value, 500);
    assert_eq!(f.unit, SizeUnit::Kilobytes);

    let f = SizeFilter::parse("-10c").unwrap();
    assert_eq!(f.comparison, SizeComparison::Lesser);
    assert_eq!(f.value, 10);
    assert_eq!(f.unit, SizeUnit::Bytes);
}

#[test]
fn test_size_filter_parse_errors() {
    // Empty pattern is rejected at parse.
    assert!(SizeFilter::parse("").is_err());
    // Missing unit.
    assert!(SizeFilter::parse("100").is_err());
    // Unknown unit.
    assert!(SizeFilter::parse("5q").is_err());
    // Missing number.
    assert!(SizeFilter::parse("k").is_err());
    assert!(SizeFilter::parse("+M").is_err());
    // Sign without anything.
    assert!(SizeFilter::parse("+").is_err());
    // A second sign is not a digit.
    assert!(SizeFilter::parse("--3k").is_err());
    // Value whose byte resolution overflows a u64.
    assert!(SizeFilter::parse("99999999999G").is_err());
    // The same value in bytes is fine.
    assert!(SizeFilter::parse("99999999999c").is_ok());
}

#[test]
fn test_size_filter_matches() {
    // The size fixture: empty.txt (0 B), small.txt (1024 B), huge.txt (5 MiB).
    let empty = 0u64;
    let small = 1024u64;
    let huge = 5 * 1024 * 1024u64;

    let lesser_2k = SizeFilter::parse("-2k").unwrap();
    assert!(lesser_2k.matches(empty));
    assert!(lesser_2k.matches(small));
    assert!(!lesser_2k.matches(huge));

    let exact_1k = SizeFilter::parse("1k").unwrap();
    assert!(!exact_1k.matches(empty));
    assert!(exact_1k.matches(small));
    assert!(!exact_1k.matches(huge));

    let greater_2m = SizeFilter::parse("+2M").unwrap();
    assert!(!greater_2m.matches(empty));
    assert!(!greater_2m.matches(small));
    assert!(greater_2m.matches(huge));
}

#[test]
fn test_size_exact_tolerance_band() {
    // Exact matches use a half-unit band: 1k accepts 512..=1536 bytes.
    let f = SizeFilter::parse("1k").unwrap();
    assert!(f.matches(512));
    assert!(f.matches(1536));
    assert!(!f.matches(511));
    assert!(!f.matches(1537));
    // Bytes have no band at all.
    let f = SizeFilter::parse("10c").unwrap();
    assert!(f.matches(10));
    assert!(!f.matches(9));
    assert!(!f.matches(11));
}

#[test]
fn test_size_filter_round_trip() {
    for s in ["1M", "+500k", "-10c", "3G", "+1c", "-999M"] {
        let f = SizeFilter::parse(s).unwrap();
        assert_eq!(SizeFilter::parse(&f.render()).unwrap(), f);
        // The canonical rendering of a canonical string is itself.
        assert_eq!(f.render(), s);
    }
}

#[test]
fn test_time_filter_parse_fields() {
    let f = TimeFilter::parse("+1h").unwrap();
    assert_eq!(f.comparison, TimeComparison::Greater);
    assert_eq!(f.value, 1);
    assert_eq!(f.unit, TimeUnit::Hours);
    assert_eq!(f.to_duration(), 3600);

    let f = TimeFilter::parse("-45s").unwrap();
    assert_eq!(f.comparison, TimeComparison::Lesser);
    assert_eq!(f.to_duration(), 45);

    let f = TimeFilter::parse("3d").unwrap();
    assert_eq!(f.comparison, TimeComparison::Exactly);
    assert_eq!(f.to_duration(), 3 * 86400);

    assert_eq!(TimeFilter::parse("2m").unwrap().to_duration(), 120);
}

#[test]
fn test_time_filter_parse_errors() {
    // Empty pattern is rejected at parse.
    assert!(TimeFilter::parse("").is_err());
    // Missing unit.
    assert!(TimeFilter::parse("10").is_err());
    // Unknown unit.
    assert!(TimeFilter::parse("10y").is_err());
    // Missing number.
    assert!(TimeFilter::parse("m").is_err());
    // A second sign is not a digit.
    assert!(TimeFilter::parse("--3d").is_err());
    // Value whose resolution in seconds overflows a u64.
    assert!(TimeFilter::parse("999999999999999d").is_err());
}

#[test]
fn test_time_filter_matches() {
    let now = 1_000_000u64;
    // Modified less than ten minutes ago.
    let f = TimeFilter::parse("-10m").unwrap();
    assert!(f.matches(now - 60, now));
    assert!(!f.matches(now - 601, now));
    // A timestamp in the future has age zero.
    assert!(f.matches(now + 50, now));
    // Modified more than thirty minutes ago.
    let f = TimeFilter::parse("+30m").unwrap();
    assert!(f.matches(now - 1801, now));
    assert!(!f.matches(now - 1800, now));
    // Exactly one hour ago, with the thirty-minute band.
    let f = TimeFilter::parse("1h").unwrap();
    assert!(f.matches(now - 3600, now));
    assert!(f.matches(now - 1800, now));
    assert!(f.matches(now - 5400, now));
    assert!(!f.matches(now - 1799, now));
    assert!(!f.matches(now - 5401, now));
}

#[test]
fn test_time_filter_round_trip() {
    for s in ["+1h", "-45s", "3d", "2m", "+120s", "-7d"] {
        let f = TimeFilter::parse(s).unwrap();
        assert_eq!(TimeFilter::parse(&f.render()).unwrap(), f);
        assert_eq!(f.render(), s);
    }
}

#[test]
fn test_type_filter_parse() {
    assert_eq!(TypeFilter::parse("f").unwrap(), TypeFilter::File);
    assert_eq!(TypeFilter::parse("file").unwrap(), TypeFilter::File);
    assert_eq!(TypeFilter::parse("d").unwrap(), TypeFilter::Dir);
    assert_eq!(TypeFilter::parse("dir").unwrap(), TypeFilter::Dir);
    assert_eq!(TypeFilter::parse("l").unwrap(), TypeFilter::Symlink);
    assert_eq!(TypeFilter::parse("link").unwrap(), TypeFilter::Symlink);
    assert_eq!(TypeFilter::parse("symlink").unwrap(), TypeFilter::Symlink);
    assert_eq!(TypeFilter::parse("any").unwrap(), TypeFilter::Any);
    // Case-sensitive short forms, and no other spelling.
    assert!(TypeFilter::parse("F").is_err());
    assert!(TypeFilter::parse("").is_err());
    assert!(TypeFilter::parse("x").is_err());
    assert_eq!(TypeFilter::default(), TypeFilter::Any);
    // The FromStr route reads the same grammar.
    assert_eq!("l".parse::<TypeFilter>().unwrap(), TypeFilter::Symlink);
}

#[test]
fn test_type_filter_round_trip() {
    for t in [TypeFilter::Any, TypeFilter::File, TypeFilter::Dir, TypeFilter::Symlink] {
        assert_eq!(TypeFilter::parse(&t.render()).unwrap(), t);
    }
}

#[test]
fn test_permission_filter_parse_errors() {
    // Empty pattern is rejected at parse.
    assert!(PermissionFilter::parse("").is_err());
    assert!(PermissionFilter::parse("u+").is_err());
    assert!(PermissionFilter::parse("u+xx").is_err());
    assert!(PermissionFilter::parse("z+x").is_err());
    assert!(PermissionFilter::parse("u=x").is_err());
    assert!(PermissionFilter::parse("u+q").is_err());
    // The set-id bit only speaks of the user or group subject.
    assert!(PermissionFilter::parse("o+s").is_err());
    assert!(PermissionFilter::parse("a-s").is_err());
    assert!(PermissionFilter::parse("u+s").is_ok());
    assert!(PermissionFilter::parse("g+s").is_ok());
}

#[test]
fn test_permission_filter_matches() {
    // rwxr-xr-x
    let mode = 0o755u32;
    assert!(PermissionFilter::parse("u+x").unwrap().matches(mode));
    assert!(PermissionFilter::parse("o-w").unwrap().matches(mode));
    assert!(PermissionFilter::parse("g+r").unwrap().matches(mode));
    assert!(!PermissionFilter::parse("g+w").unwrap().matches(mode));
    assert!(PermissionFilter::parse("g-w").unwrap().matches(mode));
    // All three fields must hold the bit for the `a` subject.
    assert!(PermissionFilter::parse("a+r").unwrap().matches(mode));
    assert!(PermissionFilter::parse("a+x").unwrap().matches(mode));
    assert!(!PermissionFilter::parse("a+w").unwrap().matches(mode));
    assert!(PermissionFilter::parse("a-w").unwrap().matches(mode));
    // Set-id bits.
    assert!(PermissionFilter::parse("u+s").unwrap().matches(0o4755));
    assert!(!PermissionFilter::parse("u+s").unwrap().matches(0o755));
    assert!(PermissionFilter::parse("g+s").unwrap().matches(0o2755));
    assert!(!PermissionFilter::parse("g+s").unwrap().matches(0o4755));
}

#[test]
fn test_permission_filter_round_trip() {
    for s in ["u+x", "g-w", "o+r", "a-x", "u+s", "g-s"] {
        let f = PermissionFilter::parse(s).unwrap();
        assert_eq!(PermissionFilter::parse(&f.render()).unwrap(), f);
        assert_eq!(f.render(), s);
    }
}

#[test]
fn test_special_modes() {
    assert!(has_special_mode(0o4755, SpecialMode::SetUID));
    assert!(!has_special_mode(0o4755, SpecialMode::SetGID));
    assert!(has_special_mode(0o2755, SpecialMode::SetGID));
    assert!(has_special_mode(0o1777, SpecialMode::Sticky));
    assert!(!has_special_mode(0o755, SpecialMode::SetUID));
    assert!(!has_special_mode(0o755, SpecialMode::Sticky));
}

#[test]
fn test_ownership_filter() {
    let f = OwnershipFilter::new(Some(1000), None);
    assert!(f.matches(1000, 55));
    assert!(!f.matches(1001, 55));
    let f = OwnershipFilter::new(None, Some(20));
    assert!(f.matches(7, 20));
    assert!(!f.matches(7, 21));
    let f = OwnershipFilter::new(Some(1000), Some(20));
    assert!(f.matches(1000, 20));
    assert!(!f.matches(1000, 21));
    // An absent filter field accepts anything.
    let f = OwnershipFilter::new(None, None);
    assert!(f.matches(42, 42));
}

#[test]
fn test_permission_string() {
    // Regular file, rwxr-xr-x.
    assert_eq!(get_permission_string(0o100755), "-rwxr-xr-x");
    // Directory, rwxr-xr-x.
    assert_eq!(get_permission_string(0o040755), "drwxr-xr-x");
    // Symlink with everything open.
    assert_eq!(get_permission_string(0o120777), "lrwxrwxrwx");
    // Setuid with execute shows a lower-case s, without it an upper-case S.
    assert_eq!(get_permission_string(0o104755), "-rwsr-xr-x");
    assert_eq!(get_permission_string(0o104655), "-rwSr-xr-x");
    // Sticky bit on a world-writable directory.
    assert_eq!(get_permission_string(0o041777), "drwxrwxrwt");
    // Read-only regular file.
    assert_eq!(get_permission_string(0o100444), "-r--r--r--");
}
