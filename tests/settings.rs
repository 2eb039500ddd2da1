use svld::config::{
    env_file_candidates, env_with_save_path, find_env_file, has_save_layout, lines_of, save_path_from_env,
};
use svld::dashboard::get_dashboard_stats;
use svld::snapshot::Backup;

fn backup(size: u64) -> Backup {
    Backup {
        id: 1,
        name: None,
        digest: String::new(),
        size,
        path: String::new(),
        save_time: String::new(),
        more_info: None,
    }
}

#[test]
fn env_file_is_the_nearest_present() {
    assert_eq!(env_file_candidates(), vec![".env", "../.env", "../../.env"]);
    assert_eq!(find_env_file(&vec![false, true, true]), Ok("../.env".to_string()));
    assert_eq!(find_env_file(&vec![true, false, false]), Ok(".env".to_string()));
    assert_eq!(find_env_file(&vec![false, false, false]), Err("没有找到 .env 文件".to_string()));
    assert_eq!(find_env_file(&vec![]), Err("没有找到 .env 文件".to_string()));
}

#[test]
fn save_folder_needs_three_subdirectories() {
    let full = vec!["world".to_string(), "stats".to_string(), "persistent".to_string(), "x".to_string()];
    assert!(has_save_layout(&full));
    let partial = vec!["world".to_string(), "stats".to_string()];
    assert!(!has_save_layout(&partial));
    assert!(!has_save_layout(&Vec::new()));
}

#[test]
fn dashboard_sums_backups() {
    let st = get_dashboard_stats(&vec![backup(10), backup(20), backup(5)]).unwrap();
    assert_eq!(st.backup_count, 3);
    assert_eq!(st.total_size, 35);
    assert!(st.is_ready);
    let empty = get_dashboard_stats(&Vec::new()).unwrap();
    assert_eq!(empty.backup_count, 0);
    assert!(get_dashboard_stats(&vec![backup(u64::MAX), backup(1)]).is_none());
}

#[test]
fn lines_split_like_std() {
    for text in ["a\r\nb\n\nc\r", "a\n", "", "\n", "one", "x\r\n\r\ny"] {
        let expected: Vec<String> = text.lines().map(|l| l.to_string()).collect();
        assert_eq!(lines_of(text), expected, "text {:?}", text);
    }
}

#[test]
fn save_path_is_read_from_first_setting_line() {
    let content = "FOO=1\n  SAVE_PATH= C:/saves/save00 \r\nSAVE_PATH=later";
    assert_eq!(save_path_from_env(content), Some("C:/saves/save00".to_string()));
    assert_eq!(save_path_from_env("SAVE_PATH=\nSAVE_PATH=z"), Some("z".to_string()));
    assert_eq!(save_path_from_env("SAVE_PATH=   "), None);
    assert_eq!(save_path_from_env(""), None);
    assert_eq!(save_path_from_env("OTHER=1"), None);
}

#[test]
fn save_path_setting_is_replaced() {
    assert_eq!(env_with_save_path("A=1\nSAVE_PATH=old\nB=2\n", "new"), "A=1\nB=2\nSAVE_PATH=new");
    assert_eq!(env_with_save_path("", "p"), "SAVE_PATH=p");
    assert_eq!(env_with_save_path("SAVE_PATH=old", "p"), "SAVE_PATH=p");
    let again = env_with_save_path(&env_with_save_path("A=1", "x"), "y");
    assert_eq!(again, "A=1\nSAVE_PATH=y");
    assert_eq!(save_path_from_env(&again), Some("y".to_string()));
}
