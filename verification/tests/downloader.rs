use pbuilder::downloader::Downloader;

#[test]
fn downloader_saves_each_url_by_name() {
    let urls = vec![
        String::from("https://www.rust-lang.org/static/images/rust-logo-blk.svg"),
        String::from("http://os.archlinuxarm.org/os/ArchLinuxARM-rpi-aarch64-latest.tar.gz"),
    ];
    let d = Downloader::new(urls.clone(), b"/tmp/save");
    assert_eq!(d.len(), 2);
    assert_eq!(d.url(0), &urls[0]);
    assert_eq!(d.savedir(), &b"/tmp/save".to_vec());
    assert_eq!(d.savepath_for(0), b"/tmp/save/rust-logo-blk.svg".to_vec());
    assert_eq!(d.savepath_for(1), b"/tmp/save/ArchLinuxARM-rpi-aarch64-latest.tar.gz".to_vec());
    assert_eq!(d.savepath_checked(1), Some(d.savepath_for(1)));
    assert_eq!(
        d.savepaths(),
        Some(vec![
            b"/tmp/save/rust-logo-blk.svg".to_vec(),
            b"/tmp/save/ArchLinuxARM-rpi-aarch64-latest.tar.gz".to_vec(),
        ])
    );
}

#[test]
fn downloader_without_file_name() {
    let d = Downloader::new(
        vec![String::from("https://a.example/x"), String::from("data:,y")],
        b"/s",
    );
    assert_eq!(d.savepath_checked(0), Some(b"/s/x".to_vec()));
    assert_eq!(d.savepath_checked(1), None);
    assert_eq!(d.savepaths(), None);
}

#[test]
fn empty_downloader() {
    let d = Downloader::new(Vec::new(), b"/s");
    assert_eq!(d.len(), 0);
    assert_eq!(d.savepaths(), Some(Vec::new()));
}
