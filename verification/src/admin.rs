//! Administrative functions: recovering the event queue, loading the blacklist, checking the
//! schema.

use crate::auth_journal::JournalError;
use crate::text;
use vstd::prelude::*;
use vstd::string::*;

verus! {

/// Checks whether the event queue may be recovered now: by a superuser, on a primary, and while
/// nothing is enforced.
pub fn check_queue_recovery(
    is_superuser: bool,
    in_recovery: bool,
    lockout_enforced: bool,
    expiry_switch_on: bool,
) -> (r: Result<(), &'static str>)
    ensures
        match r {
            Ok(()) => is_superuser && !in_recovery && !lockout_enforced && !expiry_switch_on,
            Err(e) => if !is_superuser {
                e@
                    == "permission denied: superuser is required to recover the auth event queue"@
            } else if in_recovery {
                e@ == "auth event queue recovery must be run on the writable primary"@
            } else {
                &&& lockout_enforced || expiry_switch_on
                &&& e@
                    == "set password_profile.lockout_enforcement=off and password_profile.expiry_enforcement=off, reload the configuration, then retry"@
            },
        },
{
    if !is_superuser {
        return Err("permission denied: superuser is required to recover the auth event queue");
    }
    if in_recovery {
        return Err("auth event queue recovery must be run on the writable primary");
    }
    if lockout_enforced || expiry_switch_on {
        return Err(
            "set password_profile.lockout_enforcement=off and password_profile.expiry_enforcement=off, reload the configuration, then retry",
        );
    }
    Ok(())
}

/// What to do about a journal that cannot be trusted.
pub open spec fn untrusted_journal_message(reason: Seq<char>) -> Seq<char> {
    "the durable auth event journal still contains a record that cannot be trusted ("@ + reason
        + "); no reset was performed and nothing was deleted. Stop PostgreSQL, move (do not delete) <PGDATA>/password_profile_auth_events.processing and <PGDATA>/password_profile_auth_events.active aside for analysis, start PostgreSQL, and retry. Authentication events recorded in those files will not be applied."@
}

/// Reports a recovery: made, not needed, or refused and why.
pub fn queue_recovery_reply(outcome: Result<bool, JournalError>) -> (r: Result<String, String>)
    ensures
        match (outcome, r) {
            (Ok(true), Ok(words)) => words@
                == "Auth event queue recovered; keep both enforcement switches off until auth_event_queue_state is 0 and pending journal events have drained"@,
            (Ok(false), Ok(words)) => words@
                == "Auth event queue is not corrupt; no reset was performed"@,
            (Err(JournalError::Corrupt(fault)), Err(words)) => words@ == untrusted_journal_message(
                fault.words(),
            ),
            (Err(JournalError::Io(text)), Err(words)) => words@ == text@,
            _ => false,
        },
{
    match outcome {
        Ok(true) => Ok(
            "Auth event queue recovered; keep both enforcement switches off until auth_event_queue_state is 0 and pending journal events have drained".to_string(),
        ),
        Ok(false) => Ok("Auth event queue is not corrupt; no reset was performed".to_string()),
        Err(error) => {
            match error {
                JournalError::Corrupt(fault) => {
                    let mut m =
                        "the durable auth event journal still contains a record that cannot be trusted (".to_string();
                    m.append(fault.reason());
                    m.append(
                        "); no reset was performed and nothing was deleted. Stop PostgreSQL, move (do not delete) <PGDATA>/password_profile_auth_events.processing and <PGDATA>/password_profile_auth_events.active aside for analysis, start PostgreSQL, and retry. Authentication events recorded in those files will not be applied.",
                    );
                    Err(m)
                },
                JournalError::Io(text) => Err(text),
            }
        },
    }
}

/// Reports whether the extension's tables are all there.
pub fn init_login_attempts_table(complete: bool) -> (r: Result<&'static str, &'static str>)
    ensures
        match r {
            Ok(words) => complete && words@ == "Extension tables are already initialized"@,
            Err(words) => !complete && words@
                == "password_profile schema is incomplete; reinstall the extension instead of creating tables manually"@,
        },
{
    if !complete {
        return Err(
            "password_profile schema is incomplete; reinstall the extension instead of creating tables manually",
        );
    }
    Ok("Extension tables are already initialized")
}

/// Checks who asks for a blacklist file to be read, before anything is found out about the file.
pub fn check_blacklist_permission(is_superuser: bool) -> (r: Result<(), &'static str>)
    ensures
        match r {
            Ok(()) => is_superuser,
            Err(e) => !is_superuser && e@
                == "permission denied: superuser is required to load a blacklist file"@,
        },
{
    if !is_superuser {
        return Err("permission denied: superuser is required to load a blacklist file");
    }
    Ok(())
}

/// The file a blacklist is read from: the given one, else the usual name in the data directory
/// `PGDATA` names, else in the usual data directory.
pub fn blacklist_path(file_path: Option<&str>, pgdata: Option<&str>) -> (r: String)
    ensures
        r@ == match file_path {
            Some(p) => p@,
            None => (match pgdata {
                Some(dir) => dir@,
                None => "/var/lib/pgsql/16/data"@,
            }) + "/password_profile_blacklist.txt"@,
        },
{
    match file_path {
        Some(p) => p.to_string(),
        None => {
            let mut path = match pgdata {
                Some(dir) => dir.to_string(),
                None => "/var/lib/pgsql/16/data".to_string(),
            };
            path.append("/password_profile_blacklist.txt");
            path
        },
    }
}

/// The password a line of a blacklist stands for: its text without surrounding whitespace. An
/// empty line and a comment stand for none.
pub open spec fn listed_password(trimmed: Seq<char>) -> Option<Seq<char>> {
    if trimmed.len() == 0 || trimmed[0] == '#' {
        None
    } else {
        Some(trimmed)
    }
}

/// The password a line that is already trimmed stands for.
pub fn blacklist_entry_of_trimmed(trimmed: &str) -> (r: Option<&str>)
    ensures
        match r {
            Some(p) => Some(p@) == listed_password(trimmed@),
            None => listed_password(trimmed@) is None,
        },
{
    if trimmed.unicode_len() == 0 || trimmed.get_char(0) == '#' {
        return None;
    }
    Some(trimmed)
}

/// The password a line of a blacklist stands for.
pub fn blacklist_entry(line: &str) -> (r: Option<&str>)
    ensures
        match r {
            Some(p) => Some(p@) == listed_password(text::trimmed(line@)),
            None => listed_password(text::trimmed(line@)) is None,
        },
{
    blacklist_entry_of_trimmed(text::trim(line))
}

/// Reports a loaded blacklist.
pub fn load_blacklist_reply(loaded: u64, path: &str, errors: u64) -> (r: String)
    ensures
        r@ == "Loaded "@ + text::decimal(loaded as int) + " passwords from '"@ + path@ + "' ("@
            + text::decimal(errors as int) + " errors)"@,
{
    let mut m = "Loaded ".to_string();
    text::append_count(&mut m, loaded);
    m.append(" passwords from '");
    m.append(path);
    m.append("' (");
    text::append_count(&mut m, errors);
    m.append(" errors)");
    m
}

/// The reason a blacklist row is stored with.
pub fn blacklist_reason(reason: Option<&str>) -> (r: &str)
    ensures
        r@ == match reason {
            Some(words) => words@,
            None => "Admin added"@,
        },
{
    match reason {
        Some(words) => words,
        None => "Admin added",
    }
}

} // verus!
