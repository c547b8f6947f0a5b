//! Path manipulation.
use vstd::prelude::*;

verus! {

/// The bytes of the prefix `/data/`.
pub open spec fn data_prefix() -> Seq<u8> {
    seq![0x2fu8, 0x64u8, 0x61u8, 0x74u8, 0x61u8, 0x2fu8]
}

/// The bytes of the prefix `/assets/`.
pub open spec fn assets_prefix() -> Seq<u8> {
    seq![0x2fu8, 0x61u8, 0x73u8, 0x73u8, 0x65u8, 0x74u8, 0x73u8, 0x2fu8]
}

/// The bytes of a C string hold no NUL byte.
pub open spec fn is_c_string(bytes: Seq<u8>) -> bool {
    forall|i: int| 0 <= i < bytes.len() ==> #[trigger] bytes[i] != 0u8
}

/// An owned path: the bytes of a C string, without the terminating NUL.
///
/// A path that starts with '/data/' will, on using any of the storage
/// functions, be changed to '/ext/apps_data/%APP_ID%' where %APP_ID% is gotten
/// from the current thread ID and the application manifest name.
///
/// A path that starts with '/assets/' will, on using any of the storage
/// functions, be changed to '/ext/apps_assets/%APP_ID%' where %APP_ID% is
/// gotten from the current thread ID and the application manifest name.
#[derive(PartialEq, Eq, PartialOrd, Ord)]
pub struct PathBuf {
    bytes: Vec<u8>,
}

impl View for PathBuf {
    type V = Seq<u8>;

    closed spec fn view(&self) -> Seq<u8> {
        self.bytes@
    }
}

impl PathBuf {
    #[verifier::type_invariant]
    spec fn inv(self) -> bool {
        is_c_string(self.bytes@)
    }

    fn with_prefix(prefix: &[u8], s: &[u8]) -> (path: Self)
        requires
            is_c_string(prefix@),
            is_c_string(s@),
        ensures
            path@ == prefix@ + s@,
    {
        let mut bytes: Vec<u8> = Vec::new();
        for i in 0..prefix.len()
            invariant
                bytes@ == prefix@.take(i as int),
        {
            bytes.push(prefix[i]);
            assert(prefix@.take(i + 1) == prefix@.take(i as int).push(prefix@[i as int]));
        }
        assert(prefix@.take(prefix@.len() as int) == prefix@);
        for i in 0..s.len()
            invariant
                bytes@ == prefix@ + s@.take(i as int),
        {
            bytes.push(s[i]);
            assert(s@.take(i + 1) == s@.take(i as int).push(s@[i as int]));
        }
        assert(s@.take(s@.len() as int) == s@);
        assert(is_c_string(bytes@)) by {
            assert forall|i: int| 0 <= i < bytes@.len() implies #[trigger] bytes@[i] != 0u8 by {
                if i < prefix@.len() {
                    assert(bytes@[i] == prefix@[i]);
                } else {
                    assert(bytes@[i] == s@[i - prefix@.len()]);
                }
            }
        }
        PathBuf { bytes }
    }

    /// The path made of the bytes of the C string `s`.
    pub fn new(s: &[u8]) -> (path: Self)
        requires
            is_c_string(s@),
        ensures
            path@ == s@,
    {
        let empty: Vec<u8> = Vec::new();
        let path = Self::with_prefix(empty.as_slice(), s);
        assert(empty@ + s@ == s@);
        path
    }

    /// Creates a path that starts with '/data/' which, when used with any of
    /// the storage functions, be changed to '/ext/apps_data/%APP_ID%' where
    /// %APP_ID% is gotten from the current thread ID and the application
    /// manifest name.
    pub fn in_local_data(s: &[u8]) -> (path: Self)
        requires
            is_c_string(s@),
        ensures
            path@ == data_prefix() + s@,
    {
        let prefix: [u8; 6] = [0x2f, 0x64, 0x61, 0x74, 0x61, 0x2f];
        assert(prefix@ == data_prefix());
        Self::with_prefix(prefix.as_slice(), s)
    }

    /// Creates a path that starts with '/assets/' which, when used with any
    /// of the storage functions, be changed to '/ext/apps_assets/%APP_ID%'
    /// where %APP_ID% is gotten from the current thread ID and the application
    /// manifest name.
    pub fn in_local_assets(s: &[u8]) -> (path: Self)
        requires
            is_c_string(s@),
        ensures
            path@ == assets_prefix() + s@,
    {
        let prefix: [u8; 8] = [0x2f, 0x61, 0x73, 0x73, 0x65, 0x74, 0x73, 0x2f];
        assert(prefix@ == assets_prefix());
        Self::with_prefix(prefix.as_slice(), s)
    }

    /// The bytes of this path's C string, without the terminating NUL.
    pub fn as_c_str(&self) -> (s: &[u8])
        ensures
            s@ == self@,
            is_c_string(s@),
    {
        proof {
            use_type_invariant(self);
        }
        self.bytes.as_slice()
    }
}

} // verus!
