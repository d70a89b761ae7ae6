use vstd::prelude::*;
use vstd::string::*;

use crate::document::{ConfigDocument, KeyPath, Setting, SettingView, path_view};
use crate::edits::{Action, ActionView, Edit, EditView, apply_edits};
use crate::setup::{AuthConfig, CleoSetup, SetupError, port_of};
use crate::toml::{rendered, toml_text};

verus! {

/// The key path made of the given segments.
pub open spec fn key_of(segments: Seq<&str>) -> KeyPath {
    segments.map_values(|s: &str| s@)
}

/// Builds the key path made of the given segments.
pub fn key(segments: Vec<&str>) -> (r: Vec<String>)
    ensures
        path_view(r@) == key_of(segments@),
{
    let mut r: Vec<String> = Vec::new();
    let mut i: usize = 0;
    while i < segments.len()
        invariant
            0 <= i <= segments@.len(),
            path_view(r@) == key_of(segments@.take(i as int)),
        decreases segments@.len() - i,
    {
        let ghost before = r@;
        r.push(String::from_str(segments[i]));
        assert(key_of(segments@.take(i + 1)) =~= key_of(segments@.take(i as int)).push(
            segments@[i as int]@,
        ));
        assert(path_view(r@) =~= path_view(before).push(segments@[i as int]@));
        i += 1;
    }
    assert(segments@.take(i as int) =~= segments@);
    r
}


/// The scopes joined by commas, in their order.
pub open spec fn join_spec(s: Seq<Seq<char>>) -> Seq<char>
    decreases s.len(),
{
    if s.len() == 0 {
        Seq::empty()
    } else if s.len() == 1 {
        s[0]
    } else {
        join_spec(s.drop_last()) + seq![','] + s.last()
    }
}

pub open spec fn strings_view(v: Seq<String>) -> Seq<Seq<char>> {
    v.map_values(|s: String| s@)
}

/// Joins the scopes by commas, in their order; no scopes give an empty string.
pub fn join_scopes(scopes: &Vec<String>) -> (r: String)
    ensures
        r@ == join_spec(strings_view(scopes@)),
{
    let mut r = String::new();
    let mut i: usize = 0;
    while i < scopes.len()
        invariant
            0 <= i <= scopes@.len(),
            r@ == join_spec(strings_view(scopes@.take(i as int))),
        decreases scopes@.len() - i,
    {
        let ghost before = strings_view(scopes@.take(i as int));
        assert(strings_view(scopes@.take(i + 1)).drop_last() =~= before);
        assert(strings_view(scopes@.take(i + 1)).last() == scopes@[i as int]@);
        if i > 0 {
            r.append(",");
            proof {
                reveal_strlit(",");
            }
        } else {
            assert(strings_view(scopes@.take(1)) =~= seq![scopes@[0]@]);
        }
        r.append(scopes[i].as_str());
        i += 1;
    }
    assert(scopes@.take(i as int) =~= scopes@);
    r
}


pub open spec fn ensure(segments: Seq<&str>, dotted: bool) -> EditView {
    (key_of(segments), ActionView::EnsureTable(dotted))
}

pub open spec fn put(segments: Seq<&str>, v: SettingView) -> EditView {
    (key_of(segments), ActionView::Put(v))
}

/// The edits that record the service address.
pub open spec fn carl_edits(host: Seq<char>, port: int) -> Seq<EditView> {
    seq![
        ensure(seq!["network"], false),
        ensure(seq!["network", "carl"], true),
        put(seq!["network", "carl", "host"], SettingView::Str(host)),
        put(seq!["network", "carl", "port"], SettingView::Int(port)),
    ]
}

/// The edits that record the authentication settings.
pub open spec fn auth_edits(auth: AuthConfig, host: Seq<char>, ca_path: Seq<char>) -> Seq<EditView> {
    match auth {
        AuthConfig::Disabled => seq![
            ensure(seq!["network", "oidc"], false),
            put(seq!["network", "oidc", "enabled"], SettingView::Bool(false)),
        ],
        AuthConfig::Enabled { issuer_url, client_id, client_secret, scopes } => seq![
            ensure(seq!["network", "oidc"], false),
            ensure(seq!["network", "tls"], false),
            ensure(seq!["network", "tls", "domain"], true),
            ensure(seq!["network", "tls", "domain", "name"], true),
            put(seq!["network", "oidc", "enabled"], SettingView::Bool(true)),
            put(seq!["network", "tls", "ca"], SettingView::Str(ca_path)),
            put(seq!["network", "tls", "domain", "name", "override"], SettingView::Str(host)),
            ensure(seq!["network", "oidc", "client"], false),
            ensure(seq!["network", "oidc", "client", "issuer"], true),
            put(seq!["network", "oidc", "client", "id"], SettingView::Str(client_id@)),
            put(seq!["network", "oidc", "client", "secret"], SettingView::Str(client_secret@)),
            put(
                seq!["network", "oidc", "client", "scopes"],
                SettingView::Str(join_spec(strings_view(scopes@))),
            ),
            put(seq!["network", "oidc", "client", "issuer", "url"], SettingView::Str(issuer_url@)),
        ],
    }
}

/// The host of the service address; meaningful where the address names one.
pub open spec fn host_of(setup: CleoSetup) -> Seq<char> {
    setup.carl.host.unwrap()@
}

/// The edits that merge a setup bundle into a configuration document, where the
/// CA certificate is stored at `ca_path`.
pub open spec fn cleo_edits(setup: CleoSetup, ca_path: Seq<char>) -> Seq<EditView> {
    carl_edits(host_of(setup), port_of(setup.carl)) + auth_edits(
        setup.auth_config,
        host_of(setup),
        ca_path,
    )
}

pub open spec fn edits_view(v: Seq<Edit>) -> Seq<EditView> {
    v.map_values(|e: Edit| e@)
}

fn push_ensure(edits: &mut Vec<Edit>, path: Vec<String>, dotted: bool)
    ensures
        edits_view(final(edits)@) == edits_view(old(edits)@).push(
            (path_view(path@), ActionView::EnsureTable(dotted)),
        ),
{
    let ghost before = edits@;
    let ghost p = path_view(path@);
    edits.push(Edit { path, action: Action::EnsureTable(dotted) });
    assert(edits_view(edits@) =~= edits_view(before).push((p, ActionView::EnsureTable(dotted))));
}

fn push_put(edits: &mut Vec<Edit>, path: Vec<String>, setting: Setting)
    ensures
        edits_view(final(edits)@) == edits_view(old(edits)@).push(
            (path_view(path@), ActionView::Put(setting@)),
        ),
{
    let ghost before = edits@;
    let ghost p = path_view(path@);
    let ghost v = setting@;
    edits.push(Edit { path, action: Action::Put(setting) });
    assert(edits_view(edits@) =~= edits_view(before).push((p, ActionView::Put(v))));
}

fn path1(a: &str) -> (r: Vec<String>)
    ensures
        path_view(r@) == key_of(seq![a]),
{
    let v = vec![a];
    assert(v@ =~= seq![a]);
    key(v)
}

fn path2(a: &str, b: &str) -> (r: Vec<String>)
    ensures
        path_view(r@) == key_of(seq![a, b]),
{
    let v = vec![a, b];
    assert(v@ =~= seq![a, b]);
    key(v)
}

fn path3(a: &str, b: &str, c: &str) -> (r: Vec<String>)
    ensures
        path_view(r@) == key_of(seq![a, b, c]),
{
    let v = vec![a, b, c];
    assert(v@ =~= seq![a, b, c]);
    key(v)
}

fn path4(a: &str, b: &str, c: &str, d: &str) -> (r: Vec<String>)
    ensures
        path_view(r@) == key_of(seq![a, b, c, d]),
{
    let v = vec![a, b, c, d];
    assert(v@ =~= seq![a, b, c, d]);
    key(v)
}

fn path5(a: &str, b: &str, c: &str, d: &str, e: &str) -> (r: Vec<String>)
    ensures
        path_view(r@) == key_of(seq![a, b, c, d, e]),
{
    let v = vec![a, b, c, d, e];
    assert(v@ =~= seq![a, b, c, d, e]);
    key(v)
}

/// The edits that merge `setup` into a configuration document, where the CA
/// certificate is stored at `ca_path`. Fails exactly when the service address
/// names no host.
pub fn cleo_configuration_edits(setup: &CleoSetup, ca_path: &str) -> (r: Result<Vec<Edit>, SetupError>)
    ensures
        setup.carl.host is None ==> r == Err::<Vec<Edit>, SetupError>(SetupError::MissingHost),
        r matches Ok(es) ==> setup.carl.host is Some && edits_view(es@) == cleo_edits(*setup, ca_path@),
        setup.carl.host is Some ==> r is Ok,
{
    let host = match &setup.carl.host {
        Some(h) => h,
        None => return Err(SetupError::MissingHost),
    };
    let mut es: Vec<Edit> = Vec::new();
    assert(edits_view(es@) =~= Seq::<EditView>::empty());
    push_ensure(&mut es, path1("network"), false);
    push_ensure(&mut es, path2("network", "carl"), true);
    push_put(&mut es, path3("network", "carl", "host"), Setting::Str(host.clone()));
    push_put(&mut es, path3("network", "carl", "port"), Setting::Int(setup.carl.effective_port() as i64));
    match &setup.auth_config {
        AuthConfig::Disabled => {
            push_ensure(&mut es, path2("network", "oidc"), false);
            push_put(&mut es, path3("network", "oidc", "enabled"), Setting::Bool(false));
        },
        AuthConfig::Enabled { issuer_url, client_id, client_secret, scopes } => {
            push_ensure(&mut es, path2("network", "oidc"), false);
            push_ensure(&mut es, path2("network", "tls"), false);
            push_ensure(&mut es, path3("network", "tls", "domain"), true);
            push_ensure(&mut es, path4("network", "tls", "domain", "name"), true);
            push_put(&mut es, path3("network", "oidc", "enabled"), Setting::Bool(true));
            push_put(&mut es, path3("network", "tls", "ca"), Setting::Str(String::from_str(ca_path)));
            push_put(
                &mut es,
                path5("network", "tls", "domain", "name", "override"),
                Setting::Str(host.clone()),
            );
            push_ensure(&mut es, path3("network", "oidc", "client"), false);
            push_ensure(&mut es, path4("network", "oidc", "client", "issuer"), true);
            push_put(&mut es, path4("network", "oidc", "client", "id"), Setting::Str(client_id.clone()));
            push_put(
                &mut es,
                path4("network", "oidc", "client", "secret"),
                Setting::Str(client_secret.clone()),
            );
            push_put(
                &mut es,
                path4("network", "oidc", "client", "scopes"),
                Setting::Str(join_scopes(scopes)),
            );
            push_put(
                &mut es,
                path5("network", "oidc", "client", "issuer", "url"),
                Setting::Str(issuer_url.clone()),
            );
        },
    }
    assert(edits_view(es@) =~= cleo_edits(*setup, ca_path@));
    Ok(es)
}


/// Merges the settings of `setup` into `doc`, where the CA certificate is stored
/// at `ca_path`: the service address under `network.carl`, the authentication
/// settings under `network.oidc` and, where it is enabled, `network.tls`. Every
/// other entry of `doc` is kept. Fails, leaving `doc` as it was, exactly when the
/// service address names no host.
pub fn merge_cleo_configuration(setup: &CleoSetup, ca_path: &str, doc: &mut ConfigDocument) -> (r:
    Result<(), SetupError>)
    requires
        old(doc).wf(),
    ensures
        final(doc).wf(),
        setup.carl.host is None ==> r == Err::<(), SetupError>(SetupError::MissingHost),
        setup.carl.host is None ==> final(doc)@ == old(doc)@,
        setup.carl.host is Some ==> r is Ok && final(doc)@ == apply_edits(
            old(doc)@,
            cleo_edits(*setup, ca_path@),
        ),
{
    let es = cleo_configuration_edits(setup, ca_path)?;
    doc.apply(es);
    Ok(())
}


/// A new configuration document holding the settings of `setup`. Fails exactly
/// when the service address names no host.
pub fn cleo_configuration(setup: &CleoSetup, ca_path: &str) -> (r: Result<ConfigDocument, SetupError>)
    ensures
        setup.carl.host is None ==> r == Err::<ConfigDocument, SetupError>(SetupError::MissingHost),
        setup.carl.host is Some ==> r is Ok,
        r matches Ok(doc) ==> doc.wf() && doc@ == apply_edits(
            Seq::<(KeyPath, SettingView)>::empty(),
            cleo_edits(*setup, ca_path@),
        ),
{
    let mut doc = ConfigDocument::new();
    merge_cleo_configuration(setup, ca_path, &mut doc)?;
    Ok(doc)
}

/// The TOML text of [`cleo_configuration`]. Fails exactly when the service
/// address names no host.
pub fn prepare_cleo_configuration(setup: &CleoSetup, ca_path: &str) -> (r: Result<String, SetupError>)
    ensures
        setup.carl.host is None ==> r == Err::<String, SetupError>(SetupError::MissingHost),
        setup.carl.host is Some ==> r is Ok,
        r matches Ok(text) ==> text@ == toml_text(
            rendered(
                apply_edits(Seq::<(KeyPath, SettingView)>::empty(), cleo_edits(*setup, ca_path@)),
            ),
        ),
{
    let doc = cleo_configuration(setup, ca_path)?;
    Ok(doc.to_toml_string())
}

} // verus!
