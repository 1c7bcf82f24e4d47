use vstd::prelude::*;

verus! {

/// One authentication mechanism that a server may declare acceptable.
/// `Anonymous` is the protocol's `none` method: access with no credential.
#[derive(Clone, Copy, Debug, PartialEq, Eq, Structural, Hash)]
pub enum AuthMethod {
    Anonymous,
    Password,
    PublicKey,
    HostBased,
    KeyboardInteractive,
}

/// A method is weak when it is anything but public-key authentication.
pub open spec fn is_weak(m: AuthMethod) -> bool {
    m != AuthMethod::PublicKey
}

impl AuthMethod {
    /// Whether this method counts as a finding when a server offers it.
    pub fn is_weak(&self) -> (r: bool)
        ensures
            r == is_weak(*self),
    {
        match self {
            AuthMethod::PublicKey => false,
            _ => true,
        }
    }

    /// The mechanism's name, as shown to an operator.
    pub fn label(&self) -> (r: &'static str)
        ensures
            r@ == label_of(*self),
    {
        match self {
            AuthMethod::Anonymous => "None",
            AuthMethod::Password => "Password",
            AuthMethod::PublicKey => "PublicKey",
            AuthMethod::HostBased => "HostBased",
            AuthMethod::KeyboardInteractive => "KeyboardInteractive",
        }
    }
}

/// The name of each mechanism.
pub open spec fn label_of(m: AuthMethod) -> Seq<char> {
    match m {
        AuthMethod::Anonymous => "None"@,
        AuthMethod::Password => "Password"@,
        AuthMethod::PublicKey => "PublicKey"@,
        AuthMethod::HostBased => "HostBased"@,
        AuthMethod::KeyboardInteractive => "KeyboardInteractive"@,
    }
}

} // verus!
