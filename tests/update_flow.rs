use desktop_commands::update::{
    check_for_updates_result, install_result, install_step, update_info_result, CheckOutcome,
    InstallStep, UpdateInfo,
};

fn failed(e: &str) -> CheckOutcome {
    CheckOutcome::Failed { error: e.to_string() }
}

fn checked(available: bool, version: &str) -> CheckOutcome {
    CheckOutcome::Checked { available, version: version.to_string() }
}

#[test]
fn check_reports_new_version() {
    assert_eq!(check_for_updates_result(&checked(true, "1.2.0")), Ok("发现新版本: 1.2.0".to_string()));
}

#[test]
fn check_reports_up_to_date() {
    assert_eq!(check_for_updates_result(&checked(false, "1.0.0")), Ok("当前已是最新版本".to_string()));
}

#[test]
fn check_reports_failure() {
    assert_eq!(
        check_for_updates_result(&failed("network down")),
        Err("检查更新失败: network down".to_string())
    );
}

#[test]
fn check_reports_missing_updater() {
    assert_eq!(
        check_for_updates_result(&CheckOutcome::NotConfigured),
        Err("更新器未初始化，请检查配置".to_string())
    );
}

#[test]
fn install_steps() {
    assert_eq!(install_step(&checked(true, "2.0.0")), InstallStep::Install);
    assert_eq!(install_step(&checked(false, "1.0.0")), InstallStep::Finish(Ok("没有可用更新".to_string())));
    assert_eq!(
        install_step(&failed("timeout")),
        InstallStep::Finish(Err("检查更新失败: timeout".to_string()))
    );
    assert_eq!(
        install_step(&CheckOutcome::NotConfigured),
        InstallStep::Finish(Err("更新器未初始化".to_string()))
    );
}

#[test]
fn install_results() {
    assert_eq!(install_result(&Ok(())), Ok("更新已安装，应用将重启".to_string()));
    assert_eq!(
        install_result(&Err("bad signature".to_string())),
        Err("安装更新失败: bad signature".to_string())
    );
}

#[test]
fn update_info_details() {
    let r = update_info_result("1.0.0".to_string(), &checked(true, "1.1.0"), "2024-05-01".to_string());
    assert_eq!(
        r,
        Ok(UpdateInfo {
            current_version: "1.0.0".to_string(),
            latest_version: "1.1.0".to_string(),
            has_update: true,
            update_notes: "从 GitHub Releases 获取的最新版本".to_string(),
            download_url: "GitHub Releases".to_string(),
            release_date: "2024-05-01".to_string(),
        })
    );
}

#[test]
fn update_info_errors() {
    assert_eq!(
        update_info_result("1.0.0".to_string(), &failed("403"), "2024-05-01".to_string()),
        Err("获取更新信息失败: 403".to_string())
    );
    assert_eq!(
        update_info_result("1.0.0".to_string(), &CheckOutcome::NotConfigured, "2024-05-01".to_string()),
        Err("更新器未初始化".to_string())
    );
}
