//! The update check: which notification follows each outcome of a check,
//! and whether the update is downloaded and installed.

use vstd::prelude::*;

verus! {

/// A native notification: a title and a body.
pub struct Notice {
    pub title: String,
    pub body: String,
}

/// Mathematical view of a [`Notice`].
pub struct NoticeView {
    pub title: Seq<char>,
    pub body: Seq<char>,
}

impl View for Notice {
    type V = NoticeView;

    open spec fn view(&self) -> NoticeView {
        NoticeView { title: self.title@, body: self.body@ }
    }
}

/// How a query of the update endpoint ended.
pub enum UpdateCheck {
    /// The query failed, with the error's text.
    Failed(String),
    /// An update with this version is available.
    Available(String),
    /// The running version is the latest.
    UpToDate,
}

/// What follows a check: a notification, and whether the update is
/// downloaded and installed (the app restarts when that succeeds).
pub struct UpdateStep {
    pub notice: Option<Notice>,
    pub install: bool,
}

pub open spec fn notice_view(n: Option<Notice>) -> Option<NoticeView> {
    match n {
        Some(v) => Some(v@),
        None => None,
    }
}

/// The notification after a check, for a silent (startup) or a requested
/// (menu) check; `current` is the running version.
pub open spec fn update_notice_spec(silent: bool, check: UpdateCheck, current: Seq<char>) -> Option<
    NoticeView,
> {
    match check {
        UpdateCheck::Failed(e) => if silent {
            None
        } else {
            Some(NoticeView { title: "Update check failed"@, body: e@ })
        },
        UpdateCheck::Available(v) => if silent {
            Some(
                NoticeView {
                    title: "Chatto update available"@,
                    body: "v"@ + v@ + " is ready, use Chatto > Check for Updates to install"@,
                },
            )
        } else {
            Some(
                NoticeView {
                    title: "Downloading Chatto "@ + v@ + "…"@,
                    body: "Chatto will restart when the update is ready."@,
                },
            )
        },
        UpdateCheck::UpToDate => if silent {
            None
        } else {
            Some(
                NoticeView {
                    title: "Chatto is up to date"@,
                    body: "v"@ + current + " is the latest version."@,
                },
            )
        },
    }
}

/// Whether the update is installed: only on a requested check that found one.
pub open spec fn update_installs_spec(silent: bool, check: UpdateCheck) -> bool {
    !silent && check is Available
}

fn text3(a: &str, b: &str, c: &str) -> (r: String)
    ensures
        r@ == a@ + b@ + c@,
{
    let mut s = String::from_str(a);
    s.append(b);
    s.append(c);
    s
}

/// Decides what follows an update check. A silent check only announces an
/// available update; a requested check reports every outcome and installs
/// an available update.
pub fn plan_update_step(silent: bool, check: UpdateCheck, current: &str) -> (r: UpdateStep)
    ensures
        notice_view(r.notice) == update_notice_spec(silent, check, current@),
        r.install == update_installs_spec(silent, check),
        r.install ==> (check is Available && !silent),
        (check is Available && !silent) ==> r.install,
        silent ==> (r.notice is Some <==> check is Available),
        !silent ==> r.notice is Some,
{
    match check {
        UpdateCheck::Failed(e) => {
            if silent {
                UpdateStep { notice: None, install: false }
            } else {
                let n = Notice { title: String::from_str("Update check failed"), body: e };
                UpdateStep { notice: Some(n), install: false }
            }
        },
        UpdateCheck::Available(v) => {
            if silent {
                let n = Notice {
                    title: String::from_str("Chatto update available"),
                    body: text3("v", v.as_str(), " is ready, use Chatto > Check for Updates to install"),
                };
                UpdateStep { notice: Some(n), install: false }
            } else {
                let n = Notice {
                    title: text3("Downloading Chatto ", v.as_str(), "…"),
                    body: String::from_str("Chatto will restart when the update is ready."),
                };
                UpdateStep { notice: Some(n), install: true }
            }
        },
        UpdateCheck::UpToDate => {
            if silent {
                UpdateStep { notice: None, install: false }
            } else {
                let n = Notice {
                    title: String::from_str("Chatto is up to date"),
                    body: text3("v", current, " is the latest version."),
                };
                UpdateStep { notice: Some(n), install: false }
            }
        },
    }
}

/// The notification after a download or install that failed.
pub fn install_failed_notice(error: &str) -> (r: Notice)
    ensures
        r@ == (NoticeView { title: "Update failed"@, body: error@ }),
{
    Notice { title: String::from_str("Update failed"), body: String::from_str(error) }
}

/// The install command needs a pending update; without one it is refused.
pub fn install_precondition(pending: bool) -> (r: Result<(), String>)
    ensures
        pending ==> r is Ok,
        !pending ==> (r matches Err(m) && m@ == "No update available"@),
{
    if pending {
        Ok(())
    } else {
        Err(String::from_str("No update available"))
    }
}

/// A silent check never installs and never reports a failure or an
/// up-to-date version; it only announces an available update.
pub proof fn law_silent_check_only_announces(check: UpdateCheck, current: Seq<char>)
    ensures
        !update_installs_spec(true, check),
        update_notice_spec(true, check, current) is Some <==> check is Available,
{
}

/// An install is planned only for a requested check that found an update,
/// and always for one: a failed check or an up-to-date version never
/// installs, nor does any silent check.
pub proof fn law_install_only_when_update_found(silent: bool, check: UpdateCheck)
    ensures
        update_installs_spec(silent, check) ==> check is Available,
        update_installs_spec(silent, check) ==> !silent,
        (check is Available && !silent) ==> update_installs_spec(silent, check),
        !update_installs_spec(silent, UpdateCheck::UpToDate),
{
}

/// A requested check reports a failure with the error's own text, and an
/// up-to-date version with the running version; every notice about an
/// available update names that version.
pub proof fn law_update_notices_carry_their_subject(silent: bool, e: String, v: String, current: Seq<char>)
    ensures
        update_notice_spec(false, UpdateCheck::Failed(e), current) matches Some(n) && n.body == e@,
        update_notice_spec(false, UpdateCheck::UpToDate, current) matches Some(n) && n.body.subrange(
            1,
            1 + current.len() as int,
        ) == current,
        update_notice_spec(silent, UpdateCheck::Available(v), current) matches Some(n) && ({
            let text = if silent { n.body } else { n.title };
            let start = if silent { 1int } else { "Downloading Chatto "@.len() as int };
            text.subrange(start, start + v@.len() as int) == v@
        }),
{
    reveal_strlit("v");
    reveal_strlit("Downloading Chatto ");
    let b = "v"@ + current + " is the latest version."@;
    assert(b.subrange(1, 1 + current.len() as int) =~= current);
    let sb = "v"@ + v@ + " is ready, use Chatto > Check for Updates to install"@;
    assert(sb.subrange(1, 1 + v@.len() as int) =~= v@);
    let t = "Downloading Chatto "@ + v@ + "…"@;
    assert(t.subrange("Downloading Chatto "@.len() as int, ("Downloading Chatto "@.len() + v@.len()) as int) =~= v@);
}

/// A requested check always tells the user something.
pub proof fn law_requested_check_reports(check: UpdateCheck, current: Seq<char>)
    ensures
        update_notice_spec(false, check, current) is Some,
{
}

} // verus!
