//! Decisions of the update flow. The host asks its updater service whether an
//! update exists and, where asked, downloads and installs it; these functions
//! turn each answer of the service into the next step or the final result.
use vstd::prelude::*;

verus! {

/// What a check with the updater service came back with.
#[derive(Debug, Clone, PartialEq, Eq)]
pub enum CheckOutcome {
    /// No updater service is configured.
    NotConfigured,
    /// The check failed, with the service's error text.
    Failed { error: String },
    /// The check succeeded: whether a newer release exists, and the latest
    /// version known.
    Checked { available: bool, version: String },
}

/// The next step of an install request.
#[derive(Debug, PartialEq, Eq)]
pub enum InstallStep {
    /// Download and install the update that the check found.
    Install,
    /// Stop with this result.
    Finish(Result<String, String>),
}

/// Details of the latest release, as reported to the UI layer.
#[derive(Debug, Clone, PartialEq, Eq)]
pub struct UpdateInfo {
    pub current_version: String,
    pub latest_version: String,
    pub has_update: bool,
    pub update_notes: String,
    pub download_url: String,
    pub release_date: String,
}

/// Whether `r` is `Ok` with the text `s`.
pub open spec fn is_ok_text(r: Result<String, String>, s: Seq<char>) -> bool {
    r matches Ok(t) && t@ == s
}

/// Whether `r` is `Err` with the text `s`.
pub open spec fn is_err_text(r: Result<String, String>, s: Seq<char>) -> bool {
    r matches Err(t) && t@ == s
}

/// `prefix` followed by `s`, as a new string.
fn prefixed(prefix: &str, s: &String) -> (r: String)
    ensures
        r@ == prefix@ + s@,
{
    String::from_str(prefix).concat(s.as_str())
}

/// The result of a plain update check.
pub fn check_for_updates_result(outcome: &CheckOutcome) -> (r: Result<String, String>)
    ensures
        match outcome {
            CheckOutcome::NotConfigured => is_err_text(r, "更新器未初始化，请检查配置"@),
            CheckOutcome::Failed { error } => is_err_text(r, "检查更新失败: "@ + error@),
            CheckOutcome::Checked { available, version } => if *available {
                is_ok_text(r, "发现新版本: "@ + version@)
            } else {
                is_ok_text(r, "当前已是最新版本"@)
            },
        },
{
    match outcome {
        CheckOutcome::NotConfigured => Err(String::from_str("更新器未初始化，请检查配置")),
        CheckOutcome::Failed { error } => Err(prefixed("检查更新失败: ", error)),
        CheckOutcome::Checked { available, version } => {
            if *available {
                Ok(prefixed("发现新版本: ", version))
            } else {
                Ok(String::from_str("当前已是最新版本"))
            }
        },
    }
}

/// The step of an install request after its check: install where an update
/// exists, else stop.
pub fn install_step(outcome: &CheckOutcome) -> (r: InstallStep)
    ensures
        match outcome {
            CheckOutcome::NotConfigured => r matches InstallStep::Finish(f) && is_err_text(
                f,
                "更新器未初始化"@,
            ),
            CheckOutcome::Failed { error } => r matches InstallStep::Finish(f) && is_err_text(
                f,
                "检查更新失败: "@ + error@,
            ),
            CheckOutcome::Checked { available, .. } => if *available {
                r is Install
            } else {
                r matches InstallStep::Finish(f) && is_ok_text(f, "没有可用更新"@)
            },
        },
{
    match outcome {
        CheckOutcome::NotConfigured => InstallStep::Finish(Err(String::from_str("更新器未初始化"))),
        CheckOutcome::Failed { error } => InstallStep::Finish(Err(prefixed("检查更新失败: ", error))),
        CheckOutcome::Checked { available, .. } => {
            if *available {
                InstallStep::Install
            } else {
                InstallStep::Finish(Ok(String::from_str("没有可用更新")))
            }
        },
    }
}

/// The result of an install request, from what the download and install
/// came back with (the service's error text on failure).
pub fn install_result(installed: &Result<(), String>) -> (r: Result<String, String>)
    ensures
        match installed {
            Ok(_) => is_ok_text(r, "更新已安装，应用将重启"@),
            Err(e) => is_err_text(r, "安装更新失败: "@ + e@),
        },
{
    match installed {
        Ok(_) => Ok(String::from_str("更新已安装，应用将重启")),
        Err(e) => Err(prefixed("安装更新失败: ", e)),
    }
}

/// The details of the latest release, from the running version, the
/// outcome of a check and the date to report.
pub fn update_info_result(
    current_version: String,
    outcome: &CheckOutcome,
    release_date: String,
) -> (r: Result<UpdateInfo, String>)
    ensures
        match outcome {
            CheckOutcome::NotConfigured => r matches Err(t) && t@ == "更新器未初始化"@,
            CheckOutcome::Failed { error } => r matches Err(t) && t@ == "获取更新信息失败: "@
                + error@,
            CheckOutcome::Checked { available, version } => r matches Ok(info) && {
                &&& info.current_version@ == current_version@
                &&& info.latest_version@ == version@
                &&& info.has_update == *available
                &&& info.update_notes@ == "从 GitHub Releases 获取的最新版本"@
                &&& info.download_url@ == "GitHub Releases"@
                &&& info.release_date@ == release_date@
            },
        },
{
    match outcome {
        CheckOutcome::NotConfigured => Err(String::from_str("更新器未初始化")),
        CheckOutcome::Failed { error } => Err(prefixed("获取更新信息失败: ", error)),
        CheckOutcome::Checked { available, version } => Ok(
            UpdateInfo {
                current_version,
                latest_version: version.clone(),
                has_update: *available,
                update_notes: String::from_str("从 GitHub Releases 获取的最新版本"),
                download_url: String::from_str("GitHub Releases"),
                release_date,
            },
        ),
    }
}

} // verus!
