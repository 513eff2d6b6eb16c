use vstd::prelude::*;
use vstd::string::StringExecFns;

use crate::escaping::escape;
use crate::escaping::escape_text;
use crate::escaping::lemma_unescape_escape;
use crate::escaping::unescape_text;

verus! {

/// Declare whether the network is authenticated via WEP with a password, WPA
/// with a password, or if the network is open.
pub enum AuthenticationType {
    /// WEP authentication is an older family of protocols. It is not
    /// particularly secure and wireless access points should use a more
    /// modern method such as the WPA family of authentication protocols.
    WEP(String),
    /// WPA authentication is a more modern family of protocols. Typically,
    /// wireless networks will use WPA2 as their protocol implementation.
    WPA(String),
    /// No password / open access leaves all traffic on the network readable
    /// by anyone in range.
    NoPassword,
}

/// Declare whether the network is broadcasting its availability.
pub enum Visibility {
    /// Visible wifi networks display in lists of networks when a device
    /// scans an area.
    Visible,
    /// Hidden wifi networks do not show up on scans and must be known by
    /// their SSID to be accessed.
    Hidden,
}

/// The credentials needed to completely connect to a wifi network.
pub struct WifiCredentials {
    /// The SSID of a wifi network is the name used to access it.
    pub ssid: String,
    /// The authentication type of a wifi network determines the protocol
    /// used to access it and the password required to properly authenticate.
    pub authentication_type: AuthenticationType,
    /// The visibility of a wifi network determines if it can be seen by any
    /// device or if it must be known by SSID beforehand.
    pub visibility: Visibility,
}

/// The `S:` segment of the payload: the escaped SSID between the `S:` tag
/// and a closing semicolon.
pub open spec fn ssid_segment(ssid: Seq<char>) -> Seq<char> {
    seq!['S', ':'] + escape_text(ssid) + seq![';']
}

/// The authentication segment of the payload: the protocol tag, then for the
/// two password-carrying variants a `P:` segment holding the escaped
/// password. An open network has no `P:` segment at all.
pub open spec fn auth_segment(auth: AuthenticationType) -> Seq<char> {
    match auth {
        AuthenticationType::WEP(password) => seq!['T', ':', 'W', 'E', 'P', ';', 'P', ':']
            + escape_text(password@) + seq![';'],
        AuthenticationType::WPA(password) => seq!['T', ':', 'W', 'P', 'A', ';', 'P', ':']
            + escape_text(password@) + seq![';'],
        AuthenticationType::NoPassword => seq!['T', ':', 'n', 'o', 'p', 'a', 's', 's', ';'],
    }
}

/// The `H:` segment of the payload: `true` for a hidden network, `false`
/// for a visible one.
pub open spec fn visibility_segment(visibility: Visibility) -> Seq<char> {
    match visibility {
        Visibility::Visible => seq!['H', ':', 'f', 'a', 'l', 's', 'e', ';'],
        Visibility::Hidden => seq!['H', ':', 't', 'r', 'u', 'e', ';'],
    }
}

/// The complete payload: the `WIFI:` marker, the three segments in fixed
/// order, and one more closing semicolon, so that the text always ends in
/// two semicolons.
pub open spec fn encoded_payload(credentials: WifiCredentials) -> Seq<char> {
    seq!['W', 'I', 'F', 'I', ':'] + ssid_segment(credentials.ssid@) + auth_segment(
        credentials.authentication_type,
    ) + visibility_segment(credentials.visibility) + seq![';']
}

impl AuthenticationType {
    /// Encode the authentication segment, escaping the password where one
    /// is present.
    pub fn encode(&self) -> (r: String)
        ensures
            r@ == auth_segment(*self),
    {
        match self {
            AuthenticationType::WEP(password) => {
                let mut out: String = "T:WEP;P:".to_owned();
                let escaped = escape(password.as_str());
                out.append(escaped.as_str());
                out.append(";");
                proof {
                    reveal_strlit("T:WEP;P:");
                    reveal_strlit(";");
                    assert(out@ =~= auth_segment(*self));
                }
                out
            },
            AuthenticationType::WPA(password) => {
                let mut out: String = "T:WPA;P:".to_owned();
                let escaped = escape(password.as_str());
                out.append(escaped.as_str());
                out.append(";");
                proof {
                    reveal_strlit("T:WPA;P:");
                    reveal_strlit(";");
                    assert(out@ =~= auth_segment(*self));
                }
                out
            },
            AuthenticationType::NoPassword => {
                let out: String = "T:nopass;".to_owned();
                proof {
                    reveal_strlit("T:nopass;");
                    assert(out@ =~= auth_segment(*self));
                }
                out
            },
        }
    }
}

impl Visibility {
    /// Encode the visibility segment.
    pub fn encode(&self) -> (r: String)
        ensures
            r@ == visibility_segment(*self),
    {
        match self {
            Visibility::Visible => {
                let out: String = "H:false;".to_owned();
                proof {
                    reveal_strlit("H:false;");
                    assert(out@ =~= visibility_segment(*self));
                }
                out
            },
            Visibility::Hidden => {
                let out: String = "H:true;".to_owned();
                proof {
                    reveal_strlit("H:true;");
                    assert(out@ =~= visibility_segment(*self));
                }
                out
            },
        }
    }
}

impl WifiCredentials {
    /// Encode the credentials into the form expected for a wifi QR code.
    /// The five reserved characters (`\ " ; , :`) are escaped in the output
    /// wherever they occur in the SSID or the password.
    pub fn encode(&self) -> (r: String)
        ensures
            r@ == encoded_payload(*self),
    {
        let mut out: String = "WIFI:".to_owned();
        let ssid_seg = self.encode_ssid();
        out.append(ssid_seg.as_str());
        let auth_seg = self.authentication_type.encode();
        out.append(auth_seg.as_str());
        let vis_seg = self.visibility.encode();
        out.append(vis_seg.as_str());
        out.append(";");
        proof {
            reveal_strlit("WIFI:");
            reveal_strlit(";");
            assert(out@ =~= encoded_payload(*self));
        }
        out
    }

    /// Encode the SSID segment, escaping the SSID.
    pub fn encode_ssid(&self) -> (r: String)
        ensures
            r@ == ssid_segment(self.ssid@),
    {
        let mut out: String = "S:".to_owned();
        let escaped = escape(self.ssid.as_str());
        out.append(escaped.as_str());
        out.append(";");
        proof {
            reveal_strlit("S:");
            reveal_strlit(";");
            assert(out@ =~= ssid_segment(self.ssid@));
        }
        out
    }
}

/// Two credential values with equal field contents.
pub open spec fn same_credentials(a: WifiCredentials, b: WifiCredentials) -> bool {
    &&& a.ssid@ == b.ssid@
    &&& match (a.authentication_type, b.authentication_type) {
        (AuthenticationType::WEP(p), AuthenticationType::WEP(q)) => p@ == q@,
        (AuthenticationType::WPA(p), AuthenticationType::WPA(q)) => p@ == q@,
        (AuthenticationType::NoPassword, AuthenticationType::NoPassword) => true,
        _ => false,
    }
    &&& match (a.visibility, b.visibility) {
        (Visibility::Visible, Visibility::Visible) => true,
        (Visibility::Hidden, Visibility::Hidden) => true,
        _ => false,
    }
}

/// Encoding is a pure function of the three credential fields: two
/// credential values with equal field contents encode to identical text.
pub proof fn lemma_encode_deterministic(a: WifiCredentials, b: WifiCredentials)
    requires
        same_credentials(a, b),
    ensures
        encoded_payload(a) == encoded_payload(b),
{
    assert(auth_segment(a.authentication_type) == auth_segment(b.authentication_type));
    assert(visibility_segment(a.visibility) == visibility_segment(b.visibility));
}

/// Unescaping the text of the `S:` segment, between the two-character tag
/// and the closing semicolon, recovers the SSID exactly, whatever
/// characters it holds.
pub proof fn lemma_ssid_segment_recovers(ssid: Seq<char>)
    ensures
        unescape_text(ssid_segment(ssid).subrange(2, ssid_segment(ssid).len() - 1)) == ssid,
{
    let seg = ssid_segment(ssid);
    assert(seg.subrange(2, seg.len() - 1) =~= escape_text(ssid));
    lemma_unescape_escape(ssid);
}

/// Unescaping the text of the `P:` segment, between the eight-character
/// `T:...;P:` tags and the closing semicolon, recovers the password exactly,
/// whatever characters it holds. An open network has no such segment.
pub proof fn lemma_password_segment_recovers(auth: AuthenticationType)
    ensures
        (match auth {
            AuthenticationType::WEP(password) => unescape_text(
                auth_segment(auth).subrange(8, auth_segment(auth).len() - 1),
            ) == password@,
            AuthenticationType::WPA(password) => unescape_text(
                auth_segment(auth).subrange(8, auth_segment(auth).len() - 1),
            ) == password@,
            AuthenticationType::NoPassword => true,
        }),
{
    match auth {
        AuthenticationType::WEP(password) => {
            let seg = auth_segment(auth);
            assert(seg.subrange(8, seg.len() - 1) =~= escape_text(password@));
            lemma_unescape_escape(password@);
        },
        AuthenticationType::WPA(password) => {
            let seg = auth_segment(auth);
            assert(seg.subrange(8, seg.len() - 1) =~= escape_text(password@));
            lemma_unescape_escape(password@);
        },
        AuthenticationType::NoPassword => {},
    }
}

/// Every encoded payload starts with `WIFI:` and ends with `;;`, whatever
/// the credential fields hold.
pub proof fn lemma_payload_starts_and_ends(credentials: WifiCredentials)
    ensures
        encoded_payload(credentials).len() >= 25,
        encoded_payload(credentials).subrange(0, 5) == seq!['W', 'I', 'F', 'I', ':'],
        encoded_payload(credentials).subrange(
            encoded_payload(credentials).len() - 2,
            encoded_payload(credentials).len() as int,
        ) == seq![';', ';'],
{
    let p = encoded_payload(credentials);
    assert(ssid_segment(credentials.ssid@).len() >= 3);
    match credentials.authentication_type {
        AuthenticationType::WEP(_) => {
            assert(auth_segment(credentials.authentication_type).len() >= 9);
        },
        AuthenticationType::WPA(_) => {
            assert(auth_segment(credentials.authentication_type).len() >= 9);
        },
        AuthenticationType::NoPassword => {
            assert(auth_segment(credentials.authentication_type).len() == 9);
        },
    }
    match credentials.visibility {
        Visibility::Visible => {
            assert(visibility_segment(credentials.visibility).len() == 8);
        },
        Visibility::Hidden => {
            assert(visibility_segment(credentials.visibility).len() == 7);
        },
    }
    assert(p.subrange(0, 5) =~= seq!['W', 'I', 'F', 'I', ':']);
    let v = visibility_segment(credentials.visibility);
    assert(v[v.len() - 1] == ';');
    assert(p[p.len() - 1] == ';');
    assert(p[p.len() - 2] == v[v.len() - 1]);
    assert(p.subrange(p.len() - 2, p.len() as int) =~= seq![';', ';']);
}

} // verus!

