use quickswitch::config::{get_data_dir, get_default_data_dir, get_history_config, HistoryConfig};
use quickswitch::utils::{qs_init, FileItem, HistorySortMode, ShellType, BASH_ZSH_INIT, FISH_INIT, POWERSHELL_INIT};

#[test]
fn data_dir_prefers_the_environment() {
    assert_eq!(get_data_dir(Some("/data/qs"), Some("/home/u"), None, "/tmp"), "/data/qs");
    assert_eq!(get_data_dir(Some("  \t"), Some("/home/u"), None, "/tmp"), "/home/u/.local/share/quickswitch");
    assert_eq!(get_data_dir(Some(""), None, Some("/xdg"), "/tmp"), "/xdg/quickswitch");
    assert_eq!(get_data_dir(None, None, None, "/tmp"), "/tmp/quickswitch");
    assert_eq!(get_data_dir(Some("\u{3000}"), None, None, "/tmp/"), "/tmp/quickswitch");
}

#[test]
fn default_data_dir_order() {
    assert_eq!(get_default_data_dir(Some("/home/u"), Some("/xdg"), "/tmp"), "/home/u/.local/share/quickswitch");
    assert_eq!(get_default_data_dir(None, Some("/xdg/"), "/tmp"), "/xdg/quickswitch");
}

#[test]
fn history_config_defaults() {
    let c = get_history_config();
    assert_eq!(c.max_entries, 100);
    assert_eq!(c.sort_mode, HistorySortMode::FrequencyRecent);
    assert_eq!(c.time_decay_days, 30);
    assert_eq!(c.min_frequency_threshold, 1);
    let d = HistoryConfig::default();
    assert_eq!(d.max_entries, 100);
}

#[test]
fn init_scripts() {
    assert_eq!(qs_init(ShellType::Bash), BASH_ZSH_INIT);
    assert_eq!(qs_init(ShellType::Zsh), BASH_ZSH_INIT);
    assert_eq!(qs_init(ShellType::Fish), FISH_INIT);
    assert_eq!(qs_init(ShellType::Powershell), POWERSHELL_INIT);
    assert!(BASH_ZSH_INIT.contains("qshs()"));
}

#[test]
fn file_items_from_paths() {
    let f = FileItem::from_path("/home/u/photo.JPEG", false);
    assert_eq!(f.name, "photo.JPEG");
    assert_eq!(f.path, "/home/u/photo.JPEG");
    assert!(f.is_image());
    assert!(!f.is_pdf());
    assert!(!FileItem::from_path("/x/pic.png", true).is_image());
    assert!(!FileItem::from_path("/x/.png", false).is_image());
    assert!(FileItem::from_path("/x/a.tar.SVG", false).is_image());
    assert!(!FileItem::from_path("/x/a.txt", false).is_image());
    assert!(FileItem::from_path("/x/Paper.Pdf", false).is_pdf());
    assert!(!FileItem::from_path("/x/pdf", false).is_pdf());
    assert_eq!(FileItem::from_path("/", true).name, "");
    for ext in ["jpg", "jpeg", "png", "gif", "bmp", "webp", "tiff", "tif", "svg", "ico", "avif"] {
        assert!(FileItem::from_path(&format!("/i/x.{ext}"), false).is_image(), "{ext}");
    }
}
