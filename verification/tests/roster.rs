use salmon::entry::transport::salmon::{Affiliation, Liver};
use salmon::ids::{NumId, StringId};
use salmon::models::{roster_of, AffiliationEntry, Channel, ExternalFileLoadError, LiverEntry};

fn youtube(id: &str) -> Channel {
    Channel::Youtube { id: StringId::new(id) }
}

#[test]
fn numeric_identifiers_read_back() {
    let id: NumId<Affiliation> = NumId::new(42);
    assert_eq!(*id.as_ref(), 42);
    assert_eq!(id.breach_extract(), 42);
    let copy = id;
    assert_eq!(copy, id);
    assert_eq!(id.clone(), NumId::new(42));
    assert_ne!(id, NumId::new(43));
    assert_eq!(NumId::<Liver>::new(i64::MIN).breach_extract(), i64::MIN);
    assert_eq!(id.to_text(), "42");
    assert_eq!(NumId::<Liver>::new(-7).to_text(), "-7");
}

#[test]
fn textual_identifiers_read_back() {
    let id: StringId<Channel> = StringId::new("UChAnqc_AY5_I3Px5dig3X1Q");
    assert_eq!(id.as_ref(), "UChAnqc_AY5_I3Px5dig3X1Q");
    assert!(id.same(&StringId::new("UChAnqc_AY5_I3Px5dig3X1Q")));
    assert!(!id.same(&StringId::new("UChAnqc_AY5_I3Px5dig3X1q")));
    assert!(id.same_text(&"UChAnqc_AY5_I3Px5dig3X1Q".to_string()));
    assert!(!id.same_text(&"".to_string()));
    assert_eq!(id.clone(), id);
    assert_eq!(id.to_text(), "UChAnqc_AY5_I3Px5dig3X1Q");
    assert_eq!(String::from(id.clone()), "UChAnqc_AY5_I3Px5dig3X1Q");
    assert_eq!(StringId::<Channel>::default().as_ref(), "");
    assert_eq!(id.breach_inner(), "UChAnqc_AY5_I3Px5dig3X1Q".to_string());
    assert_eq!(StringId::<Channel>::new("").as_ref(), "");
}

#[test]
fn an_affiliation_reads_back() {
    let entry = AffiliationEntry::new(NumId::new(1), "hololive");
    assert_eq!(entry.as_ref_id(), &NumId::new(1));
    assert_eq!(entry.as_ref_name(), "hololive");
    assert_eq!(entry.breach_extraction_id(), NumId::new(1));
    assert_eq!(entry.breach_extraction_name(), "hololive".to_string());
    assert_eq!(entry.clone(), entry);
}

#[test]
fn a_person_reads_back() {
    let channels = vec![youtube("UC1"), Channel::Unsupported, youtube("UC2")];
    let entry = LiverEntry::new(
        NumId::new(5),
        "nekomata okayu",
        "猫又おかゆ",
        "https://twitter.com/nekomataokayu",
        channels.clone(),
    );
    assert_eq!(entry.as_ref_id(), &NumId::new(5));
    assert_eq!(entry.get_id(), NumId::new(5));
    assert_eq!(entry.breach_extraction_id(), NumId::new(5));
    assert_eq!(entry.breach_extraction_name(), "nekomata okayu".to_string());
    assert_eq!(entry.as_ref_site(), &channels);
    assert_eq!(entry.get_site(), channels);
    assert_eq!(entry.clone(), entry);
    assert_eq!(
        entry.youtube_channels(),
        vec![StringId::<Channel>::new("UC1"), StringId::<Channel>::new("UC2")]
    );
    assert!(entry.runs_channel("UC1"));
    assert!(entry.runs_channel("UC2"));
    assert!(!entry.runs_channel("UC3"));
    assert!(!entry.runs_channel(""));
}

#[test]
fn only_channels_of_the_supported_platform_name_themselves() {
    assert_eq!(youtube("UC1").as_youtube_id(), Some(StringId::new("UC1")));
    assert_eq!(Channel::Unsupported.as_youtube_id(), None);
    assert_eq!(youtube("UC1").clone(), youtube("UC1"));
    assert_eq!(Channel::Unsupported.clone(), Channel::Unsupported);
}

#[test]
fn the_roster_goes_person_by_person() {
    let livers = vec![
        LiverEntry::new(NumId::new(1), "a", "a", "t", vec![youtube("UC2"), youtube("UC1")]),
        LiverEntry::new(NumId::new(2), "b", "b", "t", vec![Channel::Unsupported]),
        LiverEntry::new(NumId::new(3), "c", "c", "t", vec![]),
        LiverEntry::new(NumId::new(4), "d", "d", "t", vec![Channel::Unsupported, youtube("UC1")]),
    ];
    let expected: Vec<StringId<Channel>> =
        vec![StringId::new("UC2"), StringId::new("UC1"), StringId::new("UC1")];
    assert_eq!(roster_of(&livers), expected);
    assert_eq!(roster_of(&Vec::new()), Vec::new());
}

#[test]
fn load_errors_report_themselves() {
    assert_eq!(ExternalFileLoadError::CannotOpen.message(), "cannot open");
    assert_eq!(ExternalFileLoadError::CannotDeserialize.message(), "cannot deserialize");
}

#[derive(Debug, Clone, Eq, PartialEq)]
struct Entry {
    id: NumId<Entry>,
}

#[test]
fn parse_test() {
    let e = Entry { id: NumId::new(1) };

    let s = e.id.to_text();
    println!("{}", s);
    let d = Entry { id: NumId::new(s.parse().expect("")) };
    assert_eq!(e, d);
}
