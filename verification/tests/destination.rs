use photosort::date::Date;
use photosort::destination::{archive_root, plan_destination, resolve};
use photosort::error::{FileParseError, Marker};

fn destination_header(text: &[u8], with_star: bool) -> Vec<u8> {
    let mut h: Vec<u8> = vec![0xff, 0xd8, 0xff, 0xe1, 0x12, 0x34, 0x49, 0x49];
    if with_star {
        h.push(0x2a);
    }
    h.extend_from_slice(&[0x00, 0x08, 0x00, 0x25, 0x01, 0x02, 0x03]);
    h.extend_from_slice(&[0x48, 0x00, 0x00, 0x00, 0x01, 0x00, 0x00, 0x00]);
    h.extend_from_slice(&[0x48, 0x00, 0x00, 0x00, 0x01, 0x00, 0x00, 0x00]);
    h.extend_from_slice(text);
    while h.len() < 1024 {
        h.push(0x00);
    }
    h
}

#[test]
fn archive_root_lies_below_home() {
    assert_eq!(archive_root("/home/ann"), "/home/ann/annex/photos");
    assert_eq!(archive_root(""), "/annex/photos");
}

#[test]
fn resolve_joins_root_date_and_name() {
    let date = Date::try_from("2020:02:01 14:32:14".to_string()).unwrap();
    let place = resolve("/archive", &date, "IMG_0001.CR2");
    assert_eq!(place.path(), "/archive/2020/02/01/IMG_0001.CR2");
    assert_eq!(place.parent(), "/archive/2020/02/01");
}

#[test]
fn resolve_twice_gives_the_same_place() {
    let date = Date::try_from("1999:12:31".to_string()).unwrap();
    let first = resolve("/srv/photos", &date, "a.jpg");
    let second = resolve("/srv/photos", &date, "a.jpg");
    assert_eq!(first, second);
    assert_eq!(first.path(), second.path());
    assert_eq!(first.parent(), second.parent());
    assert_eq!(first.clone(), first);
}

#[test]
fn resolve_tells_dates_and_names_apart() {
    let date = Date::try_from("1999:12:31".to_string()).unwrap();
    let other = Date::try_from("1999:12:30".to_string()).unwrap();
    assert_ne!(resolve("/p", &date, "a.jpg"), resolve("/p", &other, "a.jpg"));
    assert_ne!(resolve("/p", &date, "a.jpg"), resolve("/p", &date, "b.jpg"));
    assert_ne!(resolve("/p", &date, "a.jpg"), resolve("/q", &date, "a.jpg"));
}

#[test]
fn plan_sends_file_to_directory_of_its_date() {
    let h = destination_header(b"2020:02:01 14:32:14", true);
    let place = plan_destination(&h, "/home/ann", "IMG_0001.JPG").unwrap();
    assert_eq!(place.path(), "/home/ann/annex/photos/2020/02/01/IMG_0001.JPG");
    assert_eq!(place.parent(), "/home/ann/annex/photos/2020/02/01");
}

#[test]
fn plan_fails_without_star_and_names_it() {
    let h = destination_header(b"2020:02:01 14:32:14", false);
    match plan_destination(&h, "/home/ann", "IMG_0001.JPG") {
        Err(FileParseError::FileSeekError { marker, found }) => {
            assert_eq!(marker, Marker::Magic);
            assert_eq!(marker.expected(), vec![0x2a]);
            assert_eq!(found, h[8..]);
        },
        other => panic!("expected a seek error, got {:?}", other),
    }
}

#[test]
fn plan_passes_date_errors_on() {
    let h = destination_header(b"2020/02/01 14:32:14", true);
    assert!(matches!(
        plan_destination(&h, "/home/ann", "x.jpg"),
        Err(FileParseError::DateParseError(_))
    ));
    let h = destination_header(&[0x80; 10], true);
    assert!(matches!(
        plan_destination(&h, "/home/ann", "x.jpg"),
        Err(FileParseError::DateConvertError(_))
    ));
}
