use mutualzz_updater::distro::linux_package_key;

#[test]
fn appimage_variable_wins() {
    assert_eq!(linux_package_key(true, "ID=arch\n"), "appimage");
}

#[test]
fn arch_family_is_pacman() {
    assert_eq!(linux_package_key(false, "NAME=\"Arch Linux\"\nID=arch\n"), "pacman");
    assert_eq!(linux_package_key(false, "ID=garuda\n"), "pacman");
    assert_eq!(linux_package_key(false, "ID=Manjaro\r\n"), "pacman");
}

#[test]
fn arch_substring_in_id_like_is_pacman() {
    assert_eq!(linux_package_key(false, "ID=foo\nID_LIKE=monarch\n"), "pacman");
}

#[test]
fn rpm_family() {
    assert_eq!(linux_package_key(false, "ID=fedora\nVERSION_ID=40\n"), "rpm");
    assert_eq!(linux_package_key(false, "ID=\"opensuse-leap\"\nID_LIKE=\"suse opensuse\"\n"), "rpm");
    assert_eq!(linux_package_key(false, "ID=custom\nID_LIKE=\"rhel centos\"\n"), "rpm");
}

#[test]
fn rpm_needs_whole_word() {
    // "fedoraish" is not the word "fedora"
    assert_eq!(linux_package_key(false, "ID=custom\nID_LIKE=fedoraish\n"), "appimage");
}

#[test]
fn debian_family() {
    assert_eq!(linux_package_key(false, "ID=\"ubuntu\"\nID_LIKE=debian\n"), "debian");
    assert_eq!(linux_package_key(false, "ID=pop\n"), "debian");
    assert_eq!(linux_package_key(false, "ID=custom\nID_LIKE=\"ubuntu-based\"\n"), "debian");
}

#[test]
fn unknown_or_empty_is_appimage() {
    assert_eq!(linux_package_key(false, ""), "appimage");
    assert_eq!(linux_package_key(false, "ID=nixos\n"), "appimage");
}

#[test]
fn last_id_line_counts() {
    assert_eq!(linux_package_key(false, "ID=nixos\nID=fedora"), "rpm");
    assert_eq!(linux_package_key(false, "ID=fedora\nID=nixos\n"), "appimage");
}
