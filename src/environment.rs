use vstd::prelude::*;
use vstd::string::*;

use crate::setup::{AuthConfig, CleoSetup, SetupError, port_of};

verus! {

pub open spec fn digit_char(d: nat) -> char {
    if d == 0 { '0' }
    else if d == 1 { '1' }
    else if d == 2 { '2' }
    else if d == 3 { '3' }
    else if d == 4 { '4' }
    else if d == 5 { '5' }
    else if d == 6 { '6' }
    else if d == 7 { '7' }
    else if d == 8 { '8' }
    else { '9' }
}

/// The decimal digits of `n`, without leading zeros.
pub open spec fn decimal(n: nat) -> Seq<char>
    decreases n,
{
    if n < 10 {
        seq![digit_char(n)]
    } else {
        decimal(n / 10) + seq![digit_char(n % 10)]
    }
}

fn digit_str(d: u16) -> (r: &'static str)
    requires
        d < 10,
    ensures
        r@ == seq![digit_char(d as nat)],
{
    proof {
        reveal_strlit("0");
        reveal_strlit("1");
        reveal_strlit("2");
        reveal_strlit("3");
        reveal_strlit("4");
        reveal_strlit("5");
        reveal_strlit("6");
        reveal_strlit("7");
        reveal_strlit("8");
        reveal_strlit("9");
    }
    match d {
        0 => "0",
        1 => "1",
        2 => "2",
        3 => "3",
        4 => "4",
        5 => "5",
        6 => "6",
        7 => "7",
        8 => "8",
        _ => "9",
    }
}

/// `n` in decimal.
pub fn decimal_string(n: u16) -> (r: String)
    ensures
        r@ == decimal(n as nat),
    decreases n,
{
    if n < 10 {
        String::from_str(digit_str(n))
    } else {
        let mut s = decimal_string(n / 10);
        s.append(digit_str(n % 10));
        s
    }
}

pub open spec fn quoted(s: Seq<char>) -> Seq<char> {
    seq!['"'] + s + seq!['"']
}

/// The environment variables that configure the client for `setup`, whose
/// service address has the host `host`, as names and values in their fixed order.
pub open spec fn env_pairs(setup: CleoSetup, host: Seq<char>) -> Seq<(Seq<char>, Seq<char>)> {
    let base = seq![
        ("OPENDUT_CLEO_NETWORK_TLS_DOMAIN_NAME_OVERRIDE"@, host),
        ("OPENDUT_CLEO_NETWORK_TLS_CA_CONTENT"@, quoted(setup.ca@)),
        ("OPENDUT_CLEO_NETWORK_CARL_HOST"@, host),
        ("OPENDUT_CLEO_NETWORK_CARL_PORT"@, decimal(port_of(setup.carl) as nat)),
    ];
    match setup.auth_config {
        AuthConfig::Disabled => base.push(("OPENDUT_CLEO_NETWORK_OIDC_ENABLED"@, "false"@)),
        AuthConfig::Enabled { issuer_url, client_id, client_secret, .. } => base + seq![
            ("OPENDUT_CLEO_NETWORK_OIDC_ENABLED"@, "true"@),
            ("OPENDUT_CLEO_NETWORK_OIDC_CLIENT_ISSUER_URL"@, issuer_url@),
            ("OPENDUT_CLEO_NETWORK_OIDC_CLIENT_ID"@, client_id@),
            ("OPENDUT_CLEO_NETWORK_OIDC_CLIENT_SECRET"@, client_secret@),
            ("OPENDUT_CLEO_NETWORK_OIDC_CLIENT_SCOPES"@, quoted(Seq::empty())),
        ],
    }
}

/// The lines `NAME=value`, each ended by a newline.
pub open spec fn env_text(pairs: Seq<(Seq<char>, Seq<char>)>) -> Seq<char>
    decreases pairs.len(),
{
    if pairs.len() == 0 {
        Seq::empty()
    } else {
        env_text(pairs.drop_last()) + pairs.last().0 + seq!['='] + pairs.last().1 + seq!['\n']
    }
}

pub open spec fn pairs_view(v: Seq<(String, String)>) -> Seq<(Seq<char>, Seq<char>)> {
    v.map_values(|p: (String, String)| (p.0@, p.1@))
}

fn push_pair(pairs: &mut Vec<(String, String)>, name: &str, value: String)
    ensures
        pairs_view(final(pairs)@) == pairs_view(old(pairs)@).push((name@, value@)),
{
    let ghost before = pairs@;
    let ghost v = value@;
    pairs.push((String::from_str(name), value));
    assert(pairs_view(pairs@) =~= pairs_view(before).push((name@, v)));
}

fn quote(s: &str) -> (r: String)
    ensures
        r@ == quoted(s@),
{
    proof {
        reveal_strlit("\"");
    }
    let mut r = String::from_str("\"");
    r.append(s);
    r.append("\"");
    r
}

/// The environment variables that configure the client for `setup`, in their
/// fixed order. Fails exactly when the service address names no host.
pub fn environment_variables(setup: &CleoSetup) -> (r: Result<Vec<(String, String)>, SetupError>)
    ensures
        setup.carl.host is None ==> r == Err::<Vec<(String, String)>, SetupError>(
            SetupError::MissingHost,
        ),
        setup.carl.host is Some ==> r is Ok,
        r matches Ok(pairs) ==> pairs_view(pairs@) == env_pairs(*setup, setup.carl.host.unwrap()@),
{
    let host = match &setup.carl.host {
        Some(h) => h,
        None => return Err(SetupError::MissingHost),
    };
    let mut pairs: Vec<(String, String)> = Vec::new();
    assert(pairs_view(pairs@) =~= Seq::<(Seq<char>, Seq<char>)>::empty());
    push_pair(&mut pairs, "OPENDUT_CLEO_NETWORK_TLS_DOMAIN_NAME_OVERRIDE", host.clone());
    push_pair(&mut pairs, "OPENDUT_CLEO_NETWORK_TLS_CA_CONTENT", quote(setup.ca.as_str()));
    push_pair(&mut pairs, "OPENDUT_CLEO_NETWORK_CARL_HOST", host.clone());
    push_pair(&mut pairs, "OPENDUT_CLEO_NETWORK_CARL_PORT", decimal_string(setup.carl.effective_port()));
    match &setup.auth_config {
        AuthConfig::Disabled => {
            push_pair(&mut pairs, "OPENDUT_CLEO_NETWORK_OIDC_ENABLED", String::from_str("false"));
            assert(pairs_view(pairs@) =~= env_pairs(*setup, host@));
        },
        AuthConfig::Enabled { issuer_url, client_id, client_secret, .. } => {
            push_pair(&mut pairs, "OPENDUT_CLEO_NETWORK_OIDC_ENABLED", String::from_str("true"));
            push_pair(&mut pairs, "OPENDUT_CLEO_NETWORK_OIDC_CLIENT_ISSUER_URL", issuer_url.clone());
            push_pair(&mut pairs, "OPENDUT_CLEO_NETWORK_OIDC_CLIENT_ID", client_id.clone());
            push_pair(&mut pairs, "OPENDUT_CLEO_NETWORK_OIDC_CLIENT_SECRET", client_secret.clone());
            proof {
                reveal_strlit("");
            }
            push_pair(&mut pairs, "OPENDUT_CLEO_NETWORK_OIDC_CLIENT_SCOPES", quote(""));
            assert(pairs_view(pairs@) =~= env_pairs(*setup, host@));
        },
    }
    Ok(pairs)
}

/// Writes the pairs as lines `NAME=value`.
pub fn environment_text(pairs: &Vec<(String, String)>) -> (r: String)
    ensures
        r@ == env_text(pairs_view(pairs@)),
{
    let mut r = String::new();
    let mut i: usize = 0;
    while i < pairs.len()
        invariant
            0 <= i <= pairs@.len(),
            r@ == env_text(pairs_view(pairs@.take(i as int))),
        decreases pairs@.len() - i,
    {
        let ghost before = r@;
        proof {
            reveal_strlit("=");
            reveal_strlit("\n");
            assert("="@ =~= seq!['=']);
            assert("\n"@ =~= seq!['\n']);
        }
        assert(pairs_view(pairs@.take(i + 1)).drop_last() =~= pairs_view(pairs@.take(i as int)));
        assert(pairs_view(pairs@.take(i + 1)).last() == (pairs@[i as int].0@, pairs@[i as int].1@));
        r.append(pairs[i].0.as_str());
        r.append("=");
        r.append(pairs[i].1.as_str());
        r.append("\n");
        assert(r@ == before + pairs@[i as int].0@ + seq!['='] + pairs@[i as int].1@ + seq!['\n']);
        i += 1;
    }
    assert(pairs@.take(i as int) =~= pairs@);
    r
}

/// The environment block for `setup`: one line `NAME=value` per variable. Fails
/// exactly when the service address names no host.
pub fn cleo_environment(setup: &CleoSetup) -> (r: Result<String, SetupError>)
    ensures
        setup.carl.host is None ==> r == Err::<String, SetupError>(SetupError::MissingHost),
        setup.carl.host is Some ==> r is Ok,
        r matches Ok(text) ==> text@ == env_text(env_pairs(*setup, setup.carl.host.unwrap()@)),
{
    let pairs = environment_variables(setup)?;
    Ok(environment_text(&pairs))
}

} // verus!
