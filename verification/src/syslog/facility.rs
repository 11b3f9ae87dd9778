//! Syslog facilities and their names and codes.

use vstd::prelude::*;
use vstd::string::StringExecFns;

use crate::error::{Error, ErrorKind};
use crate::strutil::{spec_lower_chars, str_eq_ignore_ascii_case};

verus! {

/// A syslog facility.  Conversions are provided to and from the POSIX
/// facility codes.
///
/// Facilities vary between platforms.  All variants are always
/// available, and those the platform does not define are mapped to a
/// reasonable alternative by [`Facility::code`].
#[derive(Debug, Clone, Copy, PartialEq, Eq, Hash, Structural)]
pub enum Facility {
    Auth,

    /// Log messages containing sensitive information.
    AuthPriv,

    /// Periodic task scheduling daemons.
    Cron,

    Daemon,

    /// FTP server.
    Ftp,

    Kern,

    /// The macOS installer; `User` elsewhere.
    Install,

    /// The macOS process supervisor; `Daemon` elsewhere.
    Launchd,

    Local0,
    Local1,
    Local2,
    Local3,
    Local4,
    Local5,
    Local6,
    Local7,
    Lpr,
    Mail,

    /// Network Time Protocol daemon; `Daemon` where not defined.
    Ntp,

    /// The NeXT/early macOS NetInfo system; `Daemon` elsewhere.
    NetInfo,

    News,

    /// macOS Remote Access Service; `User` elsewhere.
    Ras,

    /// macOS remote authentication and authorization; `Daemon`
    /// elsewhere.
    RemoteAuth,

    /// Security subsystems; `Auth` where not defined.
    Security,

    Syslog,
    User,
    Uucp,
}

impl Default for Facility {
    /// The default facility is `User`.
    fn default() -> (r: Self)
        ensures
            r == Facility::User,
    {
        Facility::User
    }
}

/// The lowercase name of each facility.
pub open spec fn spec_facility_name(f: Facility) -> Seq<char> {
    match f {
        Facility::Auth => "auth"@,
        Facility::AuthPriv => "authpriv"@,
        Facility::Cron => "cron"@,
        Facility::Daemon => "daemon"@,
        Facility::Ftp => "ftp"@,
        Facility::Kern => "kern"@,
        Facility::Install => "install"@,
        Facility::Launchd => "launchd"@,
        Facility::Local0 => "local0"@,
        Facility::Local1 => "local1"@,
        Facility::Local2 => "local2"@,
        Facility::Local3 => "local3"@,
        Facility::Local4 => "local4"@,
        Facility::Local5 => "local5"@,
        Facility::Local6 => "local6"@,
        Facility::Local7 => "local7"@,
        Facility::Lpr => "lpr"@,
        Facility::Mail => "mail"@,
        Facility::Ntp => "ntp"@,
        Facility::NetInfo => "netinfo"@,
        Facility::News => "news"@,
        Facility::Ras => "ras"@,
        Facility::RemoteAuth => "remoteauth"@,
        Facility::Security => "security"@,
        Facility::Syslog => "syslog"@,
        Facility::User => "user"@,
        Facility::Uucp => "uucp"@,
    }
}

impl Facility {
    /// Gets the name of this `Facility`, in lowercase.
    ///
    /// [`Facility::from_name`] accepts the same names, but it is
    /// case-insensitive.
    pub fn name(self) -> (r: &'static str)
        ensures
            r@ == spec_facility_name(self),
    {
        match self {
            Facility::Auth => "auth",
            Facility::AuthPriv => "authpriv",
            Facility::Cron => "cron",
            Facility::Daemon => "daemon",
            Facility::Ftp => "ftp",
            Facility::Kern => "kern",
            Facility::Install => "install",
            Facility::Launchd => "launchd",
            Facility::Local0 => "local0",
            Facility::Local1 => "local1",
            Facility::Local2 => "local2",
            Facility::Local3 => "local3",
            Facility::Local4 => "local4",
            Facility::Local5 => "local5",
            Facility::Local6 => "local6",
            Facility::Local7 => "local7",
            Facility::Lpr => "lpr",
            Facility::Mail => "mail",
            Facility::Ntp => "ntp",
            Facility::NetInfo => "netinfo",
            Facility::News => "news",
            Facility::Ras => "ras",
            Facility::RemoteAuth => "remoteauth",
            Facility::Security => "security",
            Facility::Syslog => "syslog",
            Facility::User => "user",
            Facility::Uucp => "uucp",
        }
    }
}

/// Which facility a name denotes, comparing without regard to ASCII
/// case; `None` for an unknown name.
pub open spec fn spec_parse_facility(s: Seq<char>) -> Option<Facility> {
    let lower = spec_lower_chars(s);
    if lower == spec_lower_chars("auth"@) {
        Some(Facility::Auth)
    } else if lower == spec_lower_chars("authpriv"@) {
        Some(Facility::AuthPriv)
    } else if lower == spec_lower_chars("cron"@) {
        Some(Facility::Cron)
    } else if lower == spec_lower_chars("daemon"@) {
        Some(Facility::Daemon)
    } else if lower == spec_lower_chars("ftp"@) {
        Some(Facility::Ftp)
    } else if lower == spec_lower_chars("kern"@) {
        Some(Facility::Kern)
    } else if lower == spec_lower_chars("install"@) {
        Some(Facility::Install)
    } else if lower == spec_lower_chars("launchd"@) {
        Some(Facility::Launchd)
    } else if lower == spec_lower_chars("local0"@) {
        Some(Facility::Local0)
    } else if lower == spec_lower_chars("local1"@) {
        Some(Facility::Local1)
    } else if lower == spec_lower_chars("local2"@) {
        Some(Facility::Local2)
    } else if lower == spec_lower_chars("local3"@) {
        Some(Facility::Local3)
    } else if lower == spec_lower_chars("local4"@) {
        Some(Facility::Local4)
    } else if lower == spec_lower_chars("local5"@) {
        Some(Facility::Local5)
    } else if lower == spec_lower_chars("local6"@) {
        Some(Facility::Local6)
    } else if lower == spec_lower_chars("local7"@) {
        Some(Facility::Local7)
    } else if lower == spec_lower_chars("lpr"@) {
        Some(Facility::Lpr)
    } else if lower == spec_lower_chars("mail"@) {
        Some(Facility::Mail)
    } else if lower == spec_lower_chars("ntp"@) {
        Some(Facility::Ntp)
    } else if lower == spec_lower_chars("netinfo"@) {
        Some(Facility::NetInfo)
    } else if lower == spec_lower_chars("news"@) {
        Some(Facility::News)
    } else if lower == spec_lower_chars("ras"@) {
        Some(Facility::Ras)
    } else if lower == spec_lower_chars("remoteauth"@) {
        Some(Facility::RemoteAuth)
    } else if lower == spec_lower_chars("security"@) {
        Some(Facility::Security)
    } else if lower == spec_lower_chars("syslog"@) {
        Some(Facility::Syslog)
    } else if lower == spec_lower_chars("user"@) {
        Some(Facility::User)
    } else if lower == spec_lower_chars("uucp"@) {
        Some(Facility::Uucp)
    } else {
        None
    }
}

impl Facility {
    /// Parses a facility name, without regard to ASCII case.  Exactly
    /// the names that [`Facility::name`] produces are accepted; any
    /// other name is an [`UnknownFacilityError`] carrying the rejected
    /// name.
    pub fn from_name(s: &str) -> (r: core::result::Result<Facility, UnknownFacilityError>)
        ensures
            spec_parse_facility(s@) is Some ==> r == Ok::<Facility, UnknownFacilityError>(
                spec_parse_facility(s@)->0,
            ),
            spec_parse_facility(s@) is None ==> r is Err && r->Err_0.name@ == s@,
    {
        if str_eq_ignore_ascii_case(s, "auth") {
            Ok(Facility::Auth)
        } else if str_eq_ignore_ascii_case(s, "authpriv") {
            Ok(Facility::AuthPriv)
        } else if str_eq_ignore_ascii_case(s, "cron") {
            Ok(Facility::Cron)
        } else if str_eq_ignore_ascii_case(s, "daemon") {
            Ok(Facility::Daemon)
        } else if str_eq_ignore_ascii_case(s, "ftp") {
            Ok(Facility::Ftp)
        } else if str_eq_ignore_ascii_case(s, "kern") {
            Ok(Facility::Kern)
        } else if str_eq_ignore_ascii_case(s, "install") {
            Ok(Facility::Install)
        } else if str_eq_ignore_ascii_case(s, "launchd") {
            Ok(Facility::Launchd)
        } else if str_eq_ignore_ascii_case(s, "local0") {
            Ok(Facility::Local0)
        } else if str_eq_ignore_ascii_case(s, "local1") {
            Ok(Facility::Local1)
        } else if str_eq_ignore_ascii_case(s, "local2") {
            Ok(Facility::Local2)
        } else if str_eq_ignore_ascii_case(s, "local3") {
            Ok(Facility::Local3)
        } else if str_eq_ignore_ascii_case(s, "local4") {
            Ok(Facility::Local4)
        } else if str_eq_ignore_ascii_case(s, "local5") {
            Ok(Facility::Local5)
        } else if str_eq_ignore_ascii_case(s, "local6") {
            Ok(Facility::Local6)
        } else if str_eq_ignore_ascii_case(s, "local7") {
            Ok(Facility::Local7)
        } else if str_eq_ignore_ascii_case(s, "lpr") {
            Ok(Facility::Lpr)
        } else if str_eq_ignore_ascii_case(s, "mail") {
            Ok(Facility::Mail)
        } else if str_eq_ignore_ascii_case(s, "ntp") {
            Ok(Facility::Ntp)
        } else if str_eq_ignore_ascii_case(s, "netinfo") {
            Ok(Facility::NetInfo)
        } else if str_eq_ignore_ascii_case(s, "news") {
            Ok(Facility::News)
        } else if str_eq_ignore_ascii_case(s, "ras") {
            Ok(Facility::Ras)
        } else if str_eq_ignore_ascii_case(s, "remoteauth") {
            Ok(Facility::RemoteAuth)
        } else if str_eq_ignore_ascii_case(s, "security") {
            Ok(Facility::Security)
        } else if str_eq_ignore_ascii_case(s, "syslog") {
            Ok(Facility::Syslog)
        } else if str_eq_ignore_ascii_case(s, "user") {
            Ok(Facility::User)
        } else if str_eq_ignore_ascii_case(s, "uucp") {
            Ok(Facility::Uucp)
        } else {
            Err(UnknownFacilityError { name: s.to_owned() })
        }
    }
}

impl core::str::FromStr for Facility {
    type Err = UnknownFacilityError;

    fn from_str(s: &str) -> core::result::Result<Facility, UnknownFacilityError> {
        Facility::from_name(s)
    }
}

/// The POSIX facility code of each facility, with the values the Linux
/// `<syslog.h>` defines.  Facilities the platform does not define map
/// to their nearest counterpart, as [`Facility`] documents.
pub open spec fn spec_facility_code(f: Facility) -> int {
    match f {
        Facility::Auth => 32,
        Facility::AuthPriv => 80,
        Facility::Cron => 72,
        Facility::Daemon => 24,
        Facility::Ftp => 88,
        Facility::Kern => 0,
        Facility::Install => 8,
        Facility::Launchd => 24,
        Facility::Local0 => 128,
        Facility::Local1 => 136,
        Facility::Local2 => 144,
        Facility::Local3 => 152,
        Facility::Local4 => 160,
        Facility::Local5 => 168,
        Facility::Local6 => 176,
        Facility::Local7 => 184,
        Facility::Lpr => 48,
        Facility::Mail => 16,
        Facility::Ntp => 24,
        Facility::NetInfo => 24,
        Facility::News => 56,
        Facility::Ras => 8,
        Facility::RemoteAuth => 24,
        Facility::Security => 32,
        Facility::Syslog => 40,
        Facility::User => 8,
        Facility::Uucp => 64,
    }
}

/// Which facility a POSIX code denotes, `None` for a code the platform
/// does not define.  Codes shared by several variants give the
/// platform's own facility (`8` is `User`, never `Install` or `Ras`).
pub open spec fn spec_facility_from_code(v: int) -> Option<Facility> {
    if v == 32 {
        Some(Facility::Auth)
    } else if v == 80 {
        Some(Facility::AuthPriv)
    } else if v == 72 {
        Some(Facility::Cron)
    } else if v == 24 {
        Some(Facility::Daemon)
    } else if v == 88 {
        Some(Facility::Ftp)
    } else if v == 0 {
        Some(Facility::Kern)
    } else if v == 128 {
        Some(Facility::Local0)
    } else if v == 136 {
        Some(Facility::Local1)
    } else if v == 144 {
        Some(Facility::Local2)
    } else if v == 152 {
        Some(Facility::Local3)
    } else if v == 160 {
        Some(Facility::Local4)
    } else if v == 168 {
        Some(Facility::Local5)
    } else if v == 176 {
        Some(Facility::Local6)
    } else if v == 184 {
        Some(Facility::Local7)
    } else if v == 48 {
        Some(Facility::Lpr)
    } else if v == 16 {
        Some(Facility::Mail)
    } else if v == 56 {
        Some(Facility::News)
    } else if v == 40 {
        Some(Facility::Syslog)
    } else if v == 8 {
        Some(Facility::User)
    } else if v == 64 {
        Some(Facility::Uucp)
    } else {
        None
    }
}

impl Facility {
    /// The POSIX facility code, as the Linux `<syslog.h>` defines the
    /// values; facilities the platform does not define map to their
    /// nearest counterpart.
    pub fn code(self) -> (r: i32)
        ensures
            r as int == spec_facility_code(self),
    {
        match self {
            Facility::Auth => 32,
            Facility::AuthPriv => 80,
            Facility::Cron => 72,
            Facility::Daemon => 24,
            Facility::Ftp => 88,
            Facility::Kern => 0,
            Facility::Install => 8,
            Facility::Launchd => 24,
            Facility::Local0 => 128,
            Facility::Local1 => 136,
            Facility::Local2 => 144,
            Facility::Local3 => 152,
            Facility::Local4 => 160,
            Facility::Local5 => 168,
            Facility::Local6 => 176,
            Facility::Local7 => 184,
            Facility::Lpr => 48,
            Facility::Mail => 16,
            Facility::Ntp => 24,
            Facility::NetInfo => 24,
            Facility::News => 56,
            Facility::Ras => 8,
            Facility::RemoteAuth => 24,
            Facility::Security => 32,
            Facility::Syslog => 40,
            Facility::User => 8,
            Facility::Uucp => 64,
        }
    }

    /// The facility a POSIX code denotes; an `Invalid` error for a
    /// code the platform does not define.
    pub fn from_code(value: i32) -> (r: core::result::Result<Facility, Error>)
        ensures
            spec_facility_from_code(value as int) is Some ==> r == Ok::<Facility, Error>(
                spec_facility_from_code(value as int)->0,
            ),
            spec_facility_from_code(value as int) is None ==> r is Err && r->Err_0.kind
                == ErrorKind::Invalid,
    {
        if value == 32 {
            Ok(Facility::Auth)
        } else if value == 80 {
            Ok(Facility::AuthPriv)
        } else if value == 72 {
            Ok(Facility::Cron)
        } else if value == 24 {
            Ok(Facility::Daemon)
        } else if value == 88 {
            Ok(Facility::Ftp)
        } else if value == 0 {
            Ok(Facility::Kern)
        } else if value == 128 {
            Ok(Facility::Local0)
        } else if value == 136 {
            Ok(Facility::Local1)
        } else if value == 144 {
            Ok(Facility::Local2)
        } else if value == 152 {
            Ok(Facility::Local3)
        } else if value == 160 {
            Ok(Facility::Local4)
        } else if value == 168 {
            Ok(Facility::Local5)
        } else if value == 176 {
            Ok(Facility::Local6)
        } else if value == 184 {
            Ok(Facility::Local7)
        } else if value == 48 {
            Ok(Facility::Lpr)
        } else if value == 16 {
            Ok(Facility::Mail)
        } else if value == 56 {
            Ok(Facility::News)
        } else if value == 40 {
            Ok(Facility::Syslog)
        } else if value == 8 {
            Ok(Facility::User)
        } else if value == 64 {
            Ok(Facility::Uucp)
        } else {
            let mut message = String::new();
            message.append("undefined syslog facility code");
            Err(Error::new(ErrorKind::Invalid, message))
        }
    }
}

/// Indicates that [`Facility::from_name`] was called with an unknown
/// facility name.
#[derive(Debug, Clone, PartialEq, Eq)]
pub struct UnknownFacilityError {
    /// The rejected name, as it was given.
    pub name: String,
}

impl UnknownFacilityError {
    /// The unrecognized facility name.
    pub fn name(&self) -> (r: &str)
        ensures
            r@ == self.name@,
    {
        self.name.as_str()
    }

    /// A description of this error, naming the rejected name.
    pub fn message(&self) -> (r: String)
        ensures
            r@ == "unrecognized syslog facility name `"@ + self.name@ + "`"@,
    {
        let mut out = String::new();
        out.append("unrecognized syslog facility name `");
        out.append(self.name.as_str());
        out.append("`");
        out
    }
}

} // verus!
