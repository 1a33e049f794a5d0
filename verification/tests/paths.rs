//! Paths, against `std::path`.

use std::path::{Path, PathBuf};

use rgb_channels::path::FilePath;
use rgb_channels::state_file::{read_state_hash, state_file_path, FileRead};
use rgb_channels::wallet::{Wallet, _get_wallet_data, _new_rgb_wallet};
use rgb_channels::network::BitcoinNetwork;

const TEXTS: [&str; 44] = [
    "", "/", "a", "a/b", "/a/b", "a//b", "a/./b", "./a", ".", "..", "a/..", "../a", "a/", "/a/",
    "a.b", "a.b.c", ".hidden", ".hidden.x", "a/.b", "a.", "..x", "dir/file.tar.gz", "//a", "é/ü.ß",
    "/a//b/.ldk", "/a//b//.ldk//", "///", "/.", "/./", "/./a", "./", "./.", "././a", ".//a", "a/.", "a/./",
    "a/./.", "a//", "/..", "/../a/.", "a/b/.//./", ".a/.", "a/.b.c/", "//a//./b.x/./",
];

fn text_of(path: &Path) -> String {
    path.to_str().unwrap().to_string()
}

#[test]
fn paths_are_spelled_as_they_were_given() {
    for text in TEXTS {
        assert_eq!(FilePath::from_text(text).text(), text);
        assert_eq!(text_of(Path::new(text)), text);
    }
    assert_eq!(FilePath::new().text(), "");
}

#[test]
fn joins_as_std_does() {
    for base in TEXTS {
        for text in TEXTS {
            let ours = FilePath::from_text(base).join(text);
            assert_eq!(ours.text(), text_of(&Path::new(base).join(text)), "{:?} {:?}", base, text);
        }
    }
}

fn takes_apart(text: &str) {
    let ours = FilePath::from_text(text);
    let std = Path::new(text);
    assert_eq!(ours.parent().map(|p| p.text()), std.parent().map(text_of), "{:?}", text);
    let name = std.file_name().map(|n| n.to_str().unwrap().to_string());
    assert_eq!(ours.file_name(), name, "{:?}", text);
    let extension = std.extension().map(|n| n.to_str().unwrap().to_string());
    assert_eq!(ours.extension(), extension, "{:?}", text);
    let stem = std.file_stem().map(|n| n.to_str().unwrap().to_string());
    assert_eq!(ours.file_stem(), stem, "{:?}", text);
    let mut ours = ours.copy();
    ours.set_extension("pending");
    let mut std = PathBuf::from(text);
    std.set_extension("pending");
    assert_eq!(ours.text(), text_of(&std), "{:?}", text);
}

#[test]
fn takes_paths_apart_as_std_does() {
    for text in TEXTS {
        takes_apart(text);
    }
}

#[test]
fn takes_short_paths_apart_as_std_does() {
    let mut texts = vec![String::new()];
    for _ in 0..7 {
        let mut longer = Vec::new();
        for text in &texts {
            takes_apart(text);
            for c in ["/", ".", "a"] {
                longer.push(format!("{}{}", text, c));
            }
        }
        texts = longer;
    }
    for text in &texts {
        takes_apart(text);
    }
}

#[test]
fn sets_extensions_as_std_does() {
    for text in TEXTS {
        for extension in ["pending", "inbound_pending", "x.y"] {
            let mut ours = FilePath::from_text(text);
            ours.set_extension(extension);
            let mut std = PathBuf::from(text);
            std.set_extension(extension);
            assert_eq!(ours.text(), text_of(&std), "{:?} {:?}", text, extension);
        }
    }
}

#[test]
fn files_stand_in_their_directories() {
    for text in TEXTS {
        let dir = FilePath::from_text(text);
        let file = dir.join("file.x");
        assert_eq!(file.file_name(), Some("file.x".to_string()));
        let parent = file.parent().unwrap();
        assert_eq!(Path::new(text).components().count(), Path::new(&parent.text()).components().count());
        assert!(parent.join("file.x").parent().unwrap().same(&parent), "{:?}", text);
    }
}

#[test]
fn paths_are_compared_by_their_spelling() {
    assert!(!FilePath::from_text("/a//b").same(&FilePath::from_text("/a/b")));
    assert!(!FilePath::from_text("a").same(&FilePath::from_text("a/b")));
    let path = FilePath::from_text("a/b");
    assert!(path.copy().same(&path));
}

#[test]
fn spellings_are_kept_in_texts() {
    let dir = FilePath::from_text("/a//b/.ldk");
    let missing = FileRead::Missing("none".to_string());
    match read_state_hash(&dir, &missing, "c") {
        Err(e) => assert_eq!(
            e.text(),
            "Other(\"F1r3fly state file not found: /a//b/rgb-lightning-wallet/f1r3fly_state.json\")"
        ),
        Ok(_) => panic!("no error"),
    }
    let key = || "x".to_string();
    let settings = _get_wallet_data(&dir, "regtest", key(), key(), key()).unwrap();
    assert_eq!(settings.data_dir, "/a//b");
}

#[test]
fn wallets_share_the_state_file_of_their_node() {
    for text in ["/a//b/.ldk", "/a/b/./.ldk/", "node", "/x/node//.", "./.ldk"] {
        let node = FilePath::from_text(text);
        let parent = node.parent().unwrap();
        let key = || "x".to_string();
        let wallet: Wallet =
            _new_rgb_wallet(parent.text(), BitcoinNetwork::Regtest, key(), key(), key());
        assert_eq!(wallet.ldk_data_dir.file_name(), Some(".ldk".to_string()));
        assert_eq!(
            state_file_path(&wallet.ldk_data_dir).unwrap().text(),
            state_file_path(&node).unwrap().text()
        );
    }
}
