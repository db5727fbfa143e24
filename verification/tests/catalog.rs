use mini_omaha::protocol::Channel;
use mini_omaha::version::{Version, Versions};

fn release(major: i32, urls: &[&str]) -> Version {
    Version {
        major,
        minor: 2,
        build: 3,
        patch: 4,
        count: 5,
        urls: urls.iter().map(|u| u.to_string()).collect(),
    }
}

fn catalog(dev: Vec<Version>, stable: Vec<Version>) -> Versions {
    Versions { dev, stable, beta: vec![], canary: vec![], extended: vec![] }
}

#[test]
fn version_text_is_numbers_then_locators() {
    let v = release(1, &["http://a/b", "http://c"]);
    assert_eq!(v.to_string(), "1.2.3, [\"http://a/b\", \"http://c\"]");
}

#[test]
fn version_text_escapes_locators_as_debug_does() {
    let v = release(-1, &["a\"b\\c\n"]);
    assert_eq!(v.to_string(), "-1.2.3, [\"a\\\"b\\\\c\\n\"]");
    assert_eq!(v.to_string(), format!("{}.{}.{}, {:?}", v.major, v.minor, v.build, v.urls));
}

#[test]
fn empty_version_text() {
    let v = Version::empty();
    assert_eq!(v.major, 0);
    assert_eq!(v.minor, 0);
    assert_eq!(v.build, 0);
    assert_eq!(v.patch, 0);
    assert_eq!(v.count, 0);
    assert!(v.urls.is_empty());
    assert_eq!(v.to_string(), "0.0.0, []");
    assert_eq!(v.download_link(), "");
}

#[test]
fn download_link_is_the_first_locator() {
    assert_eq!(release(1, &["http://first", "http://second"]).download_link(), "http://first");
    assert_eq!(release(1, &[]).download_link(), "");
}

#[test]
fn only_the_dev_channel_offers() {
    let versions = catalog(vec![release(7, &["u"]), release(8, &["v"])], vec![release(9, &["w"])]);
    assert_eq!(versions.offer(Channel::Dev), Some(&release(7, &["u"])));
    assert_eq!(versions.offer(Channel::Stable), None);
    assert_eq!(versions.offer(Channel::Beta), None);
    assert_eq!(versions.offer(Channel::Canary), None);
    assert_eq!(versions.offer(Channel::Extended), None);
}

#[test]
fn an_empty_dev_channel_offers_nothing() {
    let versions = catalog(vec![], vec![release(9, &["w"])]);
    assert_eq!(versions.offer(Channel::Dev), None);
}

#[test]
fn catalog_text_lists_every_channel() {
    let versions = Versions {
        dev: vec![release(1, &["a"]), release(2, &[])],
        stable: vec![],
        beta: vec![release(3, &["b", "c"])],
        canary: vec![],
        extended: vec![],
    };
    let expected = format!(
        "Versions:\n  Dev:    {:?}\n  Stable: {:?}\n  Beta:   {:?}\n  Canary: {:?}\n  Extended: {:?}\n",
        versions.dev, versions.stable, versions.beta, versions.canary, versions.extended
    );
    assert_eq!(versions.to_string(), expected);
    assert_eq!(
        versions.to_string(),
        "Versions:\n  Dev:    [Version { major: 1, minor: 2, build: 3, patch: 4, count: 5, urls: [\"a\"] }, Version { major: 2, minor: 2, build: 3, patch: 4, count: 5, urls: [] }]\n  Stable: []\n  Beta:   [Version { major: 3, minor: 2, build: 3, patch: 4, count: 5, urls: [\"b\", \"c\"] }]\n  Canary: []\n  Extended: []\n"
    );
}

#[test]
fn channel_names() {
    assert_eq!(Channel::Stable.to_string(), "Stable");
    assert_eq!(Channel::Beta.to_string(), "Beta");
    assert_eq!(Channel::Dev.to_string(), "Dev");
    assert_eq!(Channel::Canary.to_string(), "Canary");
    assert_eq!(Channel::Extended.to_string(), "Extended");
}
