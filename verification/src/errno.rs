//! The table of error codes that the kernel reports.
//!
//! A failed system call is reported by a small positive number. The numbers
//! are those of Linux (`errno-base.h` holds 1 to 34, `errno.h` the rest) and
//! run from 1 to 133. Two numbers in that range, 41 and 58, stand for
//! nothing: the kernel's list passes over them where it declares
//! `EWOULDBLOCK` and `EDEADLOCK`, which are other names for `EAGAIN` and
//! `EDEADLK`.
//!
//! [`Errno`] names each condition, [`Errno::code`] gives the number of a
//! condition and [`Errno::from_code`] the condition of a number. The members
//! of `Errno` carry no discriminant of their own, so a cast with `as` does
//! not give the kernel's number: `code` does.

use vstd::prelude::*;

verus! {

/// A condition that the kernel reports for a failed call.
#[derive(Debug, PartialEq, Eq, Clone, Copy, Structural)]
pub enum Errno {
    /// Operation not permitted (1).
    EPERM,
    /// No such file or directory (2).
    ENOENT,
    /// No such process (3).
    ESRCH,
    /// Interrupted system call (4).
    EINTR,
    /// I/O error (5).
    EIO,
    /// No such device or address (6).
    ENXIO,
    /// Argument list too long (7).
    E2BIG,
    /// Exec format error (8).
    ENOEXEC,
    /// Bad file number (9).
    EBADF,
    /// No child processes (10).
    ECHILD,
    /// Try again (11).
    EAGAIN,
    /// Out of memory (12).
    ENOMEM,
    /// Permission denied (13).
    EACCES,
    /// Bad address (14).
    EFAULT,
    /// Block device required (15).
    ENOTBLK,
    /// Device or resource busy (16).
    EBUSY,
    /// File exists (17).
    EEXIST,
    /// Cross-device link (18).
    EXDEV,
    /// No such device (19).
    ENODEV,
    /// Not a directory (20).
    ENOTDIR,
    /// Is a directory (21).
    EISDIR,
    /// Invalid argument (22).
    EINVAL,
    /// File table overflow (23).
    ENFILE,
    /// Too many open files (24).
    EMFILE,
    /// Not a typewriter (25).
    ENOTTY,
    /// Text file busy (26).
    ETXTBSY,
    /// File too large (27).
    EFBIG,
    /// No space left on device (28).
    ENOSPC,
    /// Illegal seek (29).
    ESPIPE,
    /// Read-only file system (30).
    EROFS,
    /// Too many links (31).
    EMLINK,
    /// Broken pipe (32).
    EPIPE,
    /// Math argument out of domain of func (33).
    EDOM,
    /// Math result not representable (34).
    ERANGE,
    /// Resource deadlock would occur (35).
    EDEADLK,
    /// File name too long (36).
    ENAMETOOLONG,
    /// No record locks available (37).
    ENOLCK,
    /// Invalid system call number (38).
    ENOSYS,
    /// Directory not empty (39).
    ENOTEMPTY,
    /// Too many symbolic links encountered (40).
    ELOOP,
    /// No message of desired type (42).
    ENOMSG,
    /// Identifier removed (43).
    EIDRM,
    /// Channel number out of range (44).
    ECHRNG,
    /// Level 2 not synchronized (45).
    EL2NSYNC,
    /// Level 3 halted (46).
    EL3HLT,
    /// Level 3 reset (47).
    EL3RST,
    /// Link number out of range (48).
    ELNRNG,
    /// Protocol driver not attached (49).
    EUNATCH,
    /// No CSI structure available (50).
    ENOCSI,
    /// Level 2 halted (51).
    EL2HLT,
    /// Invalid exchange (52).
    EBADE,
    /// Invalid request descriptor (53).
    EBADR,
    /// Exchange full (54).
    EXFULL,
    /// No anode (55).
    ENOANO,
    /// Invalid request code (56).
    EBADRQC,
    /// Invalid slot (57).
    EBADSLT,
    /// Bad font file format (59).
    EBFONT,
    /// Device not a stream (60).
    ENOSTR,
    /// No data available (61).
    ENODATA,
    /// Timer expired (62).
    ETIME,
    /// Out of streams resources (63).
    ENOSR,
    /// Machine is not on the network (64).
    ENONET,
    /// Package not installed (65).
    ENOPKG,
    /// Object is remote (66).
    EREMOTE,
    /// Link has been severed (67).
    ENOLINK,
    /// Advertise error (68).
    EADV,
    /// Srmount error (69).
    ESRMNT,
    /// Communication error on send (70).
    ECOMM,
    /// Protocol error (71).
    EPROTO,
    /// Multihop attempted (72).
    EMULTIHOP,
    /// RFS specific error (73).
    EDOTDOT,
    /// Not a data message (74).
    EBADMSG,
    /// Value too large for defined data type (75).
    EOVERFLOW,
    /// Name not unique on network (76).
    ENOTUNIQ,
    /// File descriptor in bad state (77).
    EBADFD,
    /// Remote address changed (78).
    EREMCHG,
    /// Can not access a needed shared library (79).
    ELIBACC,
    /// Accessing a corrupted shared library (80).
    ELIBBAD,
    /// .lib section in a.out corrupted (81).
    ELIBSCN,
    /// Attempting to link in too many shared libraries (82).
    ELIBMAX,
    /// Cannot exec a shared library directly (83).
    ELIBEXEC,
    /// Illegal byte sequence (84).
    EILSEQ,
    /// Interrupted system call should be restarted (85).
    ERESTART,
    /// Streams pipe error (86).
    ESTRPIPE,
    /// Too many users (87).
    EUSERS,
    /// Socket operation on non-socket (88).
    ENOTSOCK,
    /// Destination address required (89).
    EDESTADDRREQ,
    /// Message too long (90).
    EMSGSIZE,
    /// Protocol wrong type for socket (91).
    EPROTOTYPE,
    /// Protocol not available (92).
    ENOPROTOOPT,
    /// Protocol not supported (93).
    EPROTONOSUPPORT,
    /// Socket type not supported (94).
    ESOCKTNOSUPPORT,
    /// Operation not supported on transport endpoint (95).
    EOPNOTSUPP,
    /// Protocol family not supported (96).
    EPFNOSUPPORT,
    /// Address family not supported by protocol (97).
    EAFNOSUPPORT,
    /// Address already in use (98).
    EADDRINUSE,
    /// Cannot assign requested address (99).
    EADDRNOTAVAIL,
    /// Network is down (100).
    ENETDOWN,
    /// Network is unreachable (101).
    ENETUNREACH,
    /// Network dropped connection because of reset (102).
    ENETRESET,
    /// Software caused connection abort (103).
    ECONNABORTED,
    /// Connection reset by peer (104).
    ECONNRESET,
    /// No buffer space available (105).
    ENOBUFS,
    /// Transport endpoint is already connected (106).
    EISCONN,
    /// Transport endpoint is not connected (107).
    ENOTCONN,
    /// Cannot send after transport endpoint shutdown (108).
    ESHUTDOWN,
    /// Too many references: cannot splice (109).
    ETOOMANYREFS,
    /// Connection timed out (110).
    ETIMEDOUT,
    /// Connection refused (111).
    ECONNREFUSED,
    /// Host is down (112).
    EHOSTDOWN,
    /// No route to host (113).
    EHOSTUNREACH,
    /// Operation already in progress (114).
    EALREADY,
    /// Operation now in progress (115).
    EINPROGRESS,
    /// Stale file handle (116).
    ESTALE,
    /// Structure needs cleaning (117).
    EUCLEAN,
    /// Not a XENIX named type file (118).
    ENOTNAM,
    /// No XENIX semaphores available (119).
    ENAVAIL,
    /// Is a named type file (120).
    EISNAM,
    /// Remote I/O error (121).
    EREMOTEIO,
    /// Quota exceeded (122).
    EDQUOT,
    /// No medium found (123).
    ENOMEDIUM,
    /// Wrong medium type (124).
    EMEDIUMTYPE,
    /// Operation Canceled (125).
    ECANCELED,
    /// Required key not available (126).
    ENOKEY,
    /// Key has expired (127).
    EKEYEXPIRED,
    /// Key has been revoked (128).
    EKEYREVOKED,
    /// Key was rejected by service (129).
    EKEYREJECTED,
    /// Owner died (130).
    EOWNERDEAD,
    /// State not recoverable (131).
    ENOTRECOVERABLE,
    /// Operation not possible due to RF-kill (132).
    ERFKILL,
    /// Memory page has hardware error (133).
    EHWPOISON,
}

/// Operation would block: another name for [`Errno::EAGAIN`].
pub const EWOULDBLOCK: Errno = Errno::EAGAIN;

/// Resource deadlock would occur: another name for [`Errno::EDEADLK`].
pub const EDEADLOCK: Errno = Errno::EDEADLK;

impl Errno {
    /// The number that the kernel reports for this condition.
    pub open spec fn spec_code(self) -> usize {
        match self {
            Errno::EPERM => 1,
            Errno::ENOENT => 2,
            Errno::ESRCH => 3,
            Errno::EINTR => 4,
            Errno::EIO => 5,
            Errno::ENXIO => 6,
            Errno::E2BIG => 7,
            Errno::ENOEXEC => 8,
            Errno::EBADF => 9,
            Errno::ECHILD => 10,
            Errno::EAGAIN => 11,
            Errno::ENOMEM => 12,
            Errno::EACCES => 13,
            Errno::EFAULT => 14,
            Errno::ENOTBLK => 15,
            Errno::EBUSY => 16,
            Errno::EEXIST => 17,
            Errno::EXDEV => 18,
            Errno::ENODEV => 19,
            Errno::ENOTDIR => 20,
            Errno::EISDIR => 21,
            Errno::EINVAL => 22,
            Errno::ENFILE => 23,
            Errno::EMFILE => 24,
            Errno::ENOTTY => 25,
            Errno::ETXTBSY => 26,
            Errno::EFBIG => 27,
            Errno::ENOSPC => 28,
            Errno::ESPIPE => 29,
            Errno::EROFS => 30,
            Errno::EMLINK => 31,
            Errno::EPIPE => 32,
            Errno::EDOM => 33,
            Errno::ERANGE => 34,
            Errno::EDEADLK => 35,
            Errno::ENAMETOOLONG => 36,
            Errno::ENOLCK => 37,
            Errno::ENOSYS => 38,
            Errno::ENOTEMPTY => 39,
            Errno::ELOOP => 40,
            Errno::ENOMSG => 42,
            Errno::EIDRM => 43,
            Errno::ECHRNG => 44,
            Errno::EL2NSYNC => 45,
            Errno::EL3HLT => 46,
            Errno::EL3RST => 47,
            Errno::ELNRNG => 48,
            Errno::EUNATCH => 49,
            Errno::ENOCSI => 50,
            Errno::EL2HLT => 51,
            Errno::EBADE => 52,
            Errno::EBADR => 53,
            Errno::EXFULL => 54,
            Errno::ENOANO => 55,
            Errno::EBADRQC => 56,
            Errno::EBADSLT => 57,
            Errno::EBFONT => 59,
            Errno::ENOSTR => 60,
            Errno::ENODATA => 61,
            Errno::ETIME => 62,
            Errno::ENOSR => 63,
            Errno::ENONET => 64,
            Errno::ENOPKG => 65,
            Errno::EREMOTE => 66,
            Errno::ENOLINK => 67,
            Errno::EADV => 68,
            Errno::ESRMNT => 69,
            Errno::ECOMM => 70,
            Errno::EPROTO => 71,
            Errno::EMULTIHOP => 72,
            Errno::EDOTDOT => 73,
            Errno::EBADMSG => 74,
            Errno::EOVERFLOW => 75,
            Errno::ENOTUNIQ => 76,
            Errno::EBADFD => 77,
            Errno::EREMCHG => 78,
            Errno::ELIBACC => 79,
            Errno::ELIBBAD => 80,
            Errno::ELIBSCN => 81,
            Errno::ELIBMAX => 82,
            Errno::ELIBEXEC => 83,
            Errno::EILSEQ => 84,
            Errno::ERESTART => 85,
            Errno::ESTRPIPE => 86,
            Errno::EUSERS => 87,
            Errno::ENOTSOCK => 88,
            Errno::EDESTADDRREQ => 89,
            Errno::EMSGSIZE => 90,
            Errno::EPROTOTYPE => 91,
            Errno::ENOPROTOOPT => 92,
            Errno::EPROTONOSUPPORT => 93,
            Errno::ESOCKTNOSUPPORT => 94,
            Errno::EOPNOTSUPP => 95,
            Errno::EPFNOSUPPORT => 96,
            Errno::EAFNOSUPPORT => 97,
            Errno::EADDRINUSE => 98,
            Errno::EADDRNOTAVAIL => 99,
            Errno::ENETDOWN => 100,
            Errno::ENETUNREACH => 101,
            Errno::ENETRESET => 102,
            Errno::ECONNABORTED => 103,
            Errno::ECONNRESET => 104,
            Errno::ENOBUFS => 105,
            Errno::EISCONN => 106,
            Errno::ENOTCONN => 107,
            Errno::ESHUTDOWN => 108,
            Errno::ETOOMANYREFS => 109,
            Errno::ETIMEDOUT => 110,
            Errno::ECONNREFUSED => 111,
            Errno::EHOSTDOWN => 112,
            Errno::EHOSTUNREACH => 113,
            Errno::EALREADY => 114,
            Errno::EINPROGRESS => 115,
            Errno::ESTALE => 116,
            Errno::EUCLEAN => 117,
            Errno::ENOTNAM => 118,
            Errno::ENAVAIL => 119,
            Errno::EISNAM => 120,
            Errno::EREMOTEIO => 121,
            Errno::EDQUOT => 122,
            Errno::ENOMEDIUM => 123,
            Errno::EMEDIUMTYPE => 124,
            Errno::ECANCELED => 125,
            Errno::ENOKEY => 126,
            Errno::EKEYEXPIRED => 127,
            Errno::EKEYREVOKED => 128,
            Errno::EKEYREJECTED => 129,
            Errno::EOWNERDEAD => 130,
            Errno::ENOTRECOVERABLE => 131,
            Errno::ERFKILL => 132,
            Errno::EHWPOISON => 133,
        }
    }

    /// The condition that the number `code` stands for, if it stands for one.
    pub open spec fn spec_from_code(code: usize) -> Option<Errno> {
        if exists|e: Errno| e.spec_code() == code {
            Some(choose|e: Errno| e.spec_code() == code)
        } else {
            None
        }
    }

    /// The number that the kernel reports for this condition.
    #[verifier::when_used_as_spec(spec_code)]
    pub fn code(self) -> (n: usize)
        ensures
            n == self.spec_code(),
    {
        match self {
            Errno::EPERM => 1,
            Errno::ENOENT => 2,
            Errno::ESRCH => 3,
            Errno::EINTR => 4,
            Errno::EIO => 5,
            Errno::ENXIO => 6,
            Errno::E2BIG => 7,
            Errno::ENOEXEC => 8,
            Errno::EBADF => 9,
            Errno::ECHILD => 10,
            Errno::EAGAIN => 11,
            Errno::ENOMEM => 12,
            Errno::EACCES => 13,
            Errno::EFAULT => 14,
            Errno::ENOTBLK => 15,
            Errno::EBUSY => 16,
            Errno::EEXIST => 17,
            Errno::EXDEV => 18,
            Errno::ENODEV => 19,
            Errno::ENOTDIR => 20,
            Errno::EISDIR => 21,
            Errno::EINVAL => 22,
            Errno::ENFILE => 23,
            Errno::EMFILE => 24,
            Errno::ENOTTY => 25,
            Errno::ETXTBSY => 26,
            Errno::EFBIG => 27,
            Errno::ENOSPC => 28,
            Errno::ESPIPE => 29,
            Errno::EROFS => 30,
            Errno::EMLINK => 31,
            Errno::EPIPE => 32,
            Errno::EDOM => 33,
            Errno::ERANGE => 34,
            Errno::EDEADLK => 35,
            Errno::ENAMETOOLONG => 36,
            Errno::ENOLCK => 37,
            Errno::ENOSYS => 38,
            Errno::ENOTEMPTY => 39,
            Errno::ELOOP => 40,
            Errno::ENOMSG => 42,
            Errno::EIDRM => 43,
            Errno::ECHRNG => 44,
            Errno::EL2NSYNC => 45,
            Errno::EL3HLT => 46,
            Errno::EL3RST => 47,
            Errno::ELNRNG => 48,
            Errno::EUNATCH => 49,
            Errno::ENOCSI => 50,
            Errno::EL2HLT => 51,
            Errno::EBADE => 52,
            Errno::EBADR => 53,
            Errno::EXFULL => 54,
            Errno::ENOANO => 55,
            Errno::EBADRQC => 56,
            Errno::EBADSLT => 57,
            Errno::EBFONT => 59,
            Errno::ENOSTR => 60,
            Errno::ENODATA => 61,
            Errno::ETIME => 62,
            Errno::ENOSR => 63,
            Errno::ENONET => 64,
            Errno::ENOPKG => 65,
            Errno::EREMOTE => 66,
            Errno::ENOLINK => 67,
            Errno::EADV => 68,
            Errno::ESRMNT => 69,
            Errno::ECOMM => 70,
            Errno::EPROTO => 71,
            Errno::EMULTIHOP => 72,
            Errno::EDOTDOT => 73,
            Errno::EBADMSG => 74,
            Errno::EOVERFLOW => 75,
            Errno::ENOTUNIQ => 76,
            Errno::EBADFD => 77,
            Errno::EREMCHG => 78,
            Errno::ELIBACC => 79,
            Errno::ELIBBAD => 80,
            Errno::ELIBSCN => 81,
            Errno::ELIBMAX => 82,
            Errno::ELIBEXEC => 83,
            Errno::EILSEQ => 84,
            Errno::ERESTART => 85,
            Errno::ESTRPIPE => 86,
            Errno::EUSERS => 87,
            Errno::ENOTSOCK => 88,
            Errno::EDESTADDRREQ => 89,
            Errno::EMSGSIZE => 90,
            Errno::EPROTOTYPE => 91,
            Errno::ENOPROTOOPT => 92,
            Errno::EPROTONOSUPPORT => 93,
            Errno::ESOCKTNOSUPPORT => 94,
            Errno::EOPNOTSUPP => 95,
            Errno::EPFNOSUPPORT => 96,
            Errno::EAFNOSUPPORT => 97,
            Errno::EADDRINUSE => 98,
            Errno::EADDRNOTAVAIL => 99,
            Errno::ENETDOWN => 100,
            Errno::ENETUNREACH => 101,
            Errno::ENETRESET => 102,
            Errno::ECONNABORTED => 103,
            Errno::ECONNRESET => 104,
            Errno::ENOBUFS => 105,
            Errno::EISCONN => 106,
            Errno::ENOTCONN => 107,
            Errno::ESHUTDOWN => 108,
            Errno::ETOOMANYREFS => 109,
            Errno::ETIMEDOUT => 110,
            Errno::ECONNREFUSED => 111,
            Errno::EHOSTDOWN => 112,
            Errno::EHOSTUNREACH => 113,
            Errno::EALREADY => 114,
            Errno::EINPROGRESS => 115,
            Errno::ESTALE => 116,
            Errno::EUCLEAN => 117,
            Errno::ENOTNAM => 118,
            Errno::ENAVAIL => 119,
            Errno::EISNAM => 120,
            Errno::EREMOTEIO => 121,
            Errno::EDQUOT => 122,
            Errno::ENOMEDIUM => 123,
            Errno::EMEDIUMTYPE => 124,
            Errno::ECANCELED => 125,
            Errno::ENOKEY => 126,
            Errno::EKEYEXPIRED => 127,
            Errno::EKEYREVOKED => 128,
            Errno::EKEYREJECTED => 129,
            Errno::EOWNERDEAD => 130,
            Errno::ENOTRECOVERABLE => 131,
            Errno::ERFKILL => 132,
            Errno::EHWPOISON => 133,
        }
    }

    /// Looks up the condition that the number `code` stands for.
    ///
    /// Returns `None` for a number that stands for nothing: zero, 41, 58 and
    /// everything above 133. It is for the caller to report such a number as
    /// one that it does not recognise.
    #[verifier::when_used_as_spec(spec_from_code)]
    pub fn from_code(code: usize) -> (found: Option<Errno>)
        ensures
            found == Errno::spec_from_code(code),
            found matches Some(e) ==> e.code() == code,
            found is None ==> forall|e: Errno| e.code() != code,
            found is Some <==> 1 <= code <= 133 && code != 41 && code != 58,
    {
        let found = match code {
            1 => Some(Errno::EPERM),
            2 => Some(Errno::ENOENT),
            3 => Some(Errno::ESRCH),
            4 => Some(Errno::EINTR),
            5 => Some(Errno::EIO),
            6 => Some(Errno::ENXIO),
            7 => Some(Errno::E2BIG),
            8 => Some(Errno::ENOEXEC),
            9 => Some(Errno::EBADF),
            10 => Some(Errno::ECHILD),
            11 => Some(Errno::EAGAIN),
            12 => Some(Errno::ENOMEM),
            13 => Some(Errno::EACCES),
            14 => Some(Errno::EFAULT),
            15 => Some(Errno::ENOTBLK),
            16 => Some(Errno::EBUSY),
            17 => Some(Errno::EEXIST),
            18 => Some(Errno::EXDEV),
            19 => Some(Errno::ENODEV),
            20 => Some(Errno::ENOTDIR),
            21 => Some(Errno::EISDIR),
            22 => Some(Errno::EINVAL),
            23 => Some(Errno::ENFILE),
            24 => Some(Errno::EMFILE),
            25 => Some(Errno::ENOTTY),
            26 => Some(Errno::ETXTBSY),
            27 => Some(Errno::EFBIG),
            28 => Some(Errno::ENOSPC),
            29 => Some(Errno::ESPIPE),
            30 => Some(Errno::EROFS),
            31 => Some(Errno::EMLINK),
            32 => Some(Errno::EPIPE),
            33 => Some(Errno::EDOM),
            34 => Some(Errno::ERANGE),
            35 => Some(Errno::EDEADLK),
            36 => Some(Errno::ENAMETOOLONG),
            37 => Some(Errno::ENOLCK),
            38 => Some(Errno::ENOSYS),
            39 => Some(Errno::ENOTEMPTY),
            40 => Some(Errno::ELOOP),
            42 => Some(Errno::ENOMSG),
            43 => Some(Errno::EIDRM),
            44 => Some(Errno::ECHRNG),
            45 => Some(Errno::EL2NSYNC),
            46 => Some(Errno::EL3HLT),
            47 => Some(Errno::EL3RST),
            48 => Some(Errno::ELNRNG),
            49 => Some(Errno::EUNATCH),
            50 => Some(Errno::ENOCSI),
            51 => Some(Errno::EL2HLT),
            52 => Some(Errno::EBADE),
            53 => Some(Errno::EBADR),
            54 => Some(Errno::EXFULL),
            55 => Some(Errno::ENOANO),
            56 => Some(Errno::EBADRQC),
            57 => Some(Errno::EBADSLT),
            59 => Some(Errno::EBFONT),
            60 => Some(Errno::ENOSTR),
            61 => Some(Errno::ENODATA),
            62 => Some(Errno::ETIME),
            63 => Some(Errno::ENOSR),
            64 => Some(Errno::ENONET),
            65 => Some(Errno::ENOPKG),
            66 => Some(Errno::EREMOTE),
            67 => Some(Errno::ENOLINK),
            68 => Some(Errno::EADV),
            69 => Some(Errno::ESRMNT),
            70 => Some(Errno::ECOMM),
            71 => Some(Errno::EPROTO),
            72 => Some(Errno::EMULTIHOP),
            73 => Some(Errno::EDOTDOT),
            74 => Some(Errno::EBADMSG),
            75 => Some(Errno::EOVERFLOW),
            76 => Some(Errno::ENOTUNIQ),
            77 => Some(Errno::EBADFD),
            78 => Some(Errno::EREMCHG),
            79 => Some(Errno::ELIBACC),
            80 => Some(Errno::ELIBBAD),
            81 => Some(Errno::ELIBSCN),
            82 => Some(Errno::ELIBMAX),
            83 => Some(Errno::ELIBEXEC),
            84 => Some(Errno::EILSEQ),
            85 => Some(Errno::ERESTART),
            86 => Some(Errno::ESTRPIPE),
            87 => Some(Errno::EUSERS),
            88 => Some(Errno::ENOTSOCK),
            89 => Some(Errno::EDESTADDRREQ),
            90 => Some(Errno::EMSGSIZE),
            91 => Some(Errno::EPROTOTYPE),
            92 => Some(Errno::ENOPROTOOPT),
            93 => Some(Errno::EPROTONOSUPPORT),
            94 => Some(Errno::ESOCKTNOSUPPORT),
            95 => Some(Errno::EOPNOTSUPP),
            96 => Some(Errno::EPFNOSUPPORT),
            97 => Some(Errno::EAFNOSUPPORT),
            98 => Some(Errno::EADDRINUSE),
            99 => Some(Errno::EADDRNOTAVAIL),
            100 => Some(Errno::ENETDOWN),
            101 => Some(Errno::ENETUNREACH),
            102 => Some(Errno::ENETRESET),
            103 => Some(Errno::ECONNABORTED),
            104 => Some(Errno::ECONNRESET),
            105 => Some(Errno::ENOBUFS),
            106 => Some(Errno::EISCONN),
            107 => Some(Errno::ENOTCONN),
            108 => Some(Errno::ESHUTDOWN),
            109 => Some(Errno::ETOOMANYREFS),
            110 => Some(Errno::ETIMEDOUT),
            111 => Some(Errno::ECONNREFUSED),
            112 => Some(Errno::EHOSTDOWN),
            113 => Some(Errno::EHOSTUNREACH),
            114 => Some(Errno::EALREADY),
            115 => Some(Errno::EINPROGRESS),
            116 => Some(Errno::ESTALE),
            117 => Some(Errno::EUCLEAN),
            118 => Some(Errno::ENOTNAM),
            119 => Some(Errno::ENAVAIL),
            120 => Some(Errno::EISNAM),
            121 => Some(Errno::EREMOTEIO),
            122 => Some(Errno::EDQUOT),
            123 => Some(Errno::ENOMEDIUM),
            124 => Some(Errno::EMEDIUMTYPE),
            125 => Some(Errno::ECANCELED),
            126 => Some(Errno::ENOKEY),
            127 => Some(Errno::EKEYEXPIRED),
            128 => Some(Errno::EKEYREVOKED),
            129 => Some(Errno::EKEYREJECTED),
            130 => Some(Errno::EOWNERDEAD),
            131 => Some(Errno::ENOTRECOVERABLE),
            132 => Some(Errno::ERFKILL),
            133 => Some(Errno::EHWPOISON),
            _ => None,
        };
        proof {
            if let Some(e) = found {
                lemma_lookup_inverts_code(e);
            }
        }
        found
    }
}

/// No two conditions share a number.
pub proof fn lemma_code_injective(a: Errno, b: Errno)
    requires
        a.code() == b.code(),
    ensures
        a == b,
{
}

/// The number of a condition lies between 1 and 133 and is neither 41 nor 58.
pub proof fn lemma_code_bounds(e: Errno)
    ensures
        1 <= e.code() <= 133,
        e.code() != 41,
        e.code() != 58,
{
}

/// Looking up the number of a condition gives that condition, and no other.
pub proof fn lemma_lookup_inverts_code(e: Errno)
    ensures
        Errno::from_code(e.code()) == Some(e),
{
    let found = choose|x: Errno| x.code() == e.code();
    lemma_code_injective(found, e);
}

/// Every number of the table is looked up to exactly one condition: the only
/// one that has that number.
pub proof fn lemma_lookup_total_on_table(code: usize)
    requires
        exists|e: Errno| e.code() == code,
    ensures
        Errno::from_code(code) matches Some(e) && e.code() == code,
        forall|e: Errno| e.code() == code ==> Errno::from_code(code) == Some(e),
{
    assert forall|e: Errno| e.code() == code implies Errno::from_code(code) == Some(e) by {
        lemma_lookup_inverts_code(e);
    }
}

} // verus!
