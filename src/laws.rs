use vstd::prelude::*;

use crate::configuration::{cleo_edits, host_of, join_spec, key_of, strings_view};
use crate::document::{
    DocView, KeyPath, SettingView, grouped, has_path, is_table, lookup, parents_grouped, unique_paths,
};
use crate::edits::{
    apply_edits, distinct_paths, lemma_apply_frame, lemma_apply_idempotent, lemma_apply_satisfies,
    satisfied, touches,
};
use crate::setup::{AuthConfig, CleoSetup, port_of};

verus! {

/// `q` lies under the group `p` (or is `p` itself).
pub open spec fn under(q: KeyPath, p: KeyPath) -> bool {
    p.len() <= q.len() && q.take(p.len() as int) == p
}

/// No two elements of `s` are equal.
pub open spec fn pairwise_distinct(s: Seq<Seq<char>>) -> bool {
    forall|i: int, j: int| 0 <= i < j < s.len() ==> #[trigger] s[i] != #[trigger] s[j]
}

proof fn lemma_disabled_words_distinct()
    ensures
        pairwise_distinct(seq![
            "network"@, "carl"@, "host"@, "port"@, "oidc"@, "enabled"@
        ]),
{
    reveal_strlit("network");
    reveal_strlit("carl");
    reveal_strlit("host");
    reveal_strlit("port");
    reveal_strlit("oidc");
    reveal_strlit("enabled");
    let words: Seq<Seq<char>> = seq![
        "network"@, "carl"@, "host"@, "port"@, "oidc"@, "enabled"@
    ];
    assert(words[0] == "network"@);
    assert(words[1] == "carl"@);
    assert(words[2] == "host"@);
    assert(words[3] == "port"@);
    assert(words[4] == "oidc"@);
    assert(words[5] == "enabled"@);
    assert forall|i: int, j: int| 0 <= i < j < words.len() implies #[trigger] words[i] != #[trigger] words[j] by {
        if j == 1 {
            assert(words[0].len() != words[1].len());
        } else if j == 2 {
            assert(words[0].len() != words[2].len());
            assert(words[1][0] != words[2][0]);
        } else if j == 3 {
            assert(words[0].len() != words[3].len());
            assert(words[1][0] != words[3][0]);
            assert(words[2][0] != words[3][0]);
        } else if j == 4 {
            assert(words[0].len() != words[4].len());
            assert(words[1][0] != words[4][0]);
            assert(words[2][0] != words[4][0]);
            assert(words[3][0] != words[4][0]);
        } else if j == 5 {
            assert(words[0][0] != words[5][0]);
            assert(words[1].len() != words[5].len());
            assert(words[2].len() != words[5].len());
            assert(words[3].len() != words[5].len());
            assert(words[4].len() != words[5].len());
        }
    }
}

proof fn lemma_enabled_words_distinct()
    ensures
        pairwise_distinct(seq![
            "network"@, "carl"@, "host"@, "port"@, "oidc"@, "tls"@, "domain"@, "name"@,
            "enabled"@, "ca"@, "override"@, "client"@, "issuer"@, "id"@, "secret"@, "scopes"@,
            "url"@,
        ]),
{
    reveal_strlit("network");
    reveal_strlit("carl");
    reveal_strlit("host");
    reveal_strlit("port");
    reveal_strlit("oidc");
    reveal_strlit("enabled");
    reveal_strlit("tls");
    reveal_strlit("domain");
    reveal_strlit("name");
    reveal_strlit("override");
    reveal_strlit("ca");
    reveal_strlit("client");
    reveal_strlit("issuer");
    reveal_strlit("id");
    reveal_strlit("secret");
    reveal_strlit("scopes");
    reveal_strlit("url");
    let words: Seq<Seq<char>> = seq![
        "network"@, "carl"@, "host"@, "port"@, "oidc"@, "tls"@, "domain"@, "name"@,
        "enabled"@, "ca"@, "override"@, "client"@, "issuer"@, "id"@, "secret"@, "scopes"@,
        "url"@,
    ];
    assert(words[0] == "network"@);
    assert(words[1] == "carl"@);
    assert(words[2] == "host"@);
    assert(words[3] == "port"@);
    assert(words[4] == "oidc"@);
    assert(words[5] == "tls"@);
    assert(words[6] == "domain"@);
    assert(words[7] == "name"@);
    assert(words[8] == "enabled"@);
    assert(words[9] == "ca"@);
    assert(words[10] == "override"@);
    assert(words[11] == "client"@);
    assert(words[12] == "issuer"@);
    assert(words[13] == "id"@);
    assert(words[14] == "secret"@);
    assert(words[15] == "scopes"@);
    assert(words[16] == "url"@);
    assert forall|i: int, j: int| 0 <= i < j < words.len() implies #[trigger] words[i] != #[trigger] words[j] by {
        if j == 1 {
            assert(words[0].len() != words[1].len());
        } else if j == 2 {
            assert(words[0].len() != words[2].len());
            assert(words[1][0] != words[2][0]);
        } else if j == 3 {
            assert(words[0].len() != words[3].len());
            assert(words[1][0] != words[3][0]);
            assert(words[2][0] != words[3][0]);
        } else if j == 4 {
            assert(words[0].len() != words[4].len());
            assert(words[1][0] != words[4][0]);
            assert(words[2][0] != words[4][0]);
            assert(words[3][0] != words[4][0]);
        } else if j == 5 {
            assert(words[0].len() != words[5].len());
            assert(words[1].len() != words[5].len());
            assert(words[2].len() != words[5].len());
            assert(words[3].len() != words[5].len());
            assert(words[4].len() != words[5].len());
        } else if j == 6 {
            assert(words[0].len() != words[6].len());
            assert(words[1].len() != words[6].len());
            assert(words[2].len() != words[6].len());
            assert(words[3].len() != words[6].len());
            assert(words[4].len() != words[6].len());
            assert(words[5].len() != words[6].len());
        } else if j == 7 {
            assert(words[0].len() != words[7].len());
            assert(words[1][0] != words[7][0]);
            assert(words[2][0] != words[7][0]);
            assert(words[3][0] != words[7][0]);
            assert(words[4][0] != words[7][0]);
            assert(words[5].len() != words[7].len());
            assert(words[6].len() != words[7].len());
        } else if j == 8 {
            assert(words[0][0] != words[8][0]);
            assert(words[1].len() != words[8].len());
            assert(words[2].len() != words[8].len());
            assert(words[3].len() != words[8].len());
            assert(words[4].len() != words[8].len());
            assert(words[5].len() != words[8].len());
            assert(words[6].len() != words[8].len());
            assert(words[7].len() != words[8].len());
        } else if j == 9 {
            assert(words[0].len() != words[9].len());
            assert(words[1].len() != words[9].len());
            assert(words[2].len() != words[9].len());
            assert(words[3].len() != words[9].len());
            assert(words[4].len() != words[9].len());
            assert(words[5].len() != words[9].len());
            assert(words[6].len() != words[9].len());
            assert(words[7].len() != words[9].len());
            assert(words[8].len() != words[9].len());
        } else if j == 10 {
            assert(words[0].len() != words[10].len());
            assert(words[1].len() != words[10].len());
            assert(words[2].len() != words[10].len());
            assert(words[3].len() != words[10].len());
            assert(words[4].len() != words[10].len());
            assert(words[5].len() != words[10].len());
            assert(words[6].len() != words[10].len());
            assert(words[7].len() != words[10].len());
            assert(words[8].len() != words[10].len());
            assert(words[9].len() != words[10].len());
        } else if j == 11 {
            assert(words[0].len() != words[11].len());
            assert(words[1].len() != words[11].len());
            assert(words[2].len() != words[11].len());
            assert(words[3].len() != words[11].len());
            assert(words[4].len() != words[11].len());
            assert(words[5].len() != words[11].len());
            assert(words[6][0] != words[11][0]);
            assert(words[7].len() != words[11].len());
            assert(words[8].len() != words[11].len());
            assert(words[9].len() != words[11].len());
            assert(words[10].len() != words[11].len());
        } else if j == 12 {
            assert(words[0].len() != words[12].len());
            assert(words[1].len() != words[12].len());
            assert(words[2].len() != words[12].len());
            assert(words[3].len() != words[12].len());
            assert(words[4].len() != words[12].len());
            assert(words[5].len() != words[12].len());
            assert(words[6][0] != words[12][0]);
            assert(words[7].len() != words[12].len());
            assert(words[8].len() != words[12].len());
            assert(words[9].len() != words[12].len());
            assert(words[10].len() != words[12].len());
            assert(words[11][0] != words[12][0]);
        } else if j == 13 {
            assert(words[0].len() != words[13].len());
            assert(words[1].len() != words[13].len());
            assert(words[2].len() != words[13].len());
            assert(words[3].len() != words[13].len());
            assert(words[4].len() != words[13].len());
            assert(words[5].len() != words[13].len());
            assert(words[6].len() != words[13].len());
            assert(words[7].len() != words[13].len());
            assert(words[8].len() != words[13].len());
            assert(words[9][0] != words[13][0]);
            assert(words[10].len() != words[13].len());
            assert(words[11].len() != words[13].len());
            assert(words[12].len() != words[13].len());
        } else if j == 14 {
            assert(words[0].len() != words[14].len());
            assert(words[1].len() != words[14].len());
            assert(words[2].len() != words[14].len());
            assert(words[3].len() != words[14].len());
            assert(words[4].len() != words[14].len());
            assert(words[5].len() != words[14].len());
            assert(words[6][0] != words[14][0]);
            assert(words[7].len() != words[14].len());
            assert(words[8].len() != words[14].len());
            assert(words[9].len() != words[14].len());
            assert(words[10].len() != words[14].len());
            assert(words[11][0] != words[14][0]);
            assert(words[12][0] != words[14][0]);
            assert(words[13].len() != words[14].len());
        } else if j == 15 {
            assert(words[0].len() != words[15].len());
            assert(words[1].len() != words[15].len());
            assert(words[2].len() != words[15].len());
            assert(words[3].len() != words[15].len());
            assert(words[4].len() != words[15].len());
            assert(words[5].len() != words[15].len());
            assert(words[6][0] != words[15][0]);
            assert(words[7].len() != words[15].len());
            assert(words[8].len() != words[15].len());
            assert(words[9].len() != words[15].len());
            assert(words[10].len() != words[15].len());
            assert(words[11][0] != words[15][0]);
            assert(words[12][0] != words[15][0]);
            assert(words[13].len() != words[15].len());
            assert(words[14][1] != words[15][1]);
        } else if j == 16 {
            assert(words[0].len() != words[16].len());
            assert(words[1].len() != words[16].len());
            assert(words[2].len() != words[16].len());
            assert(words[3].len() != words[16].len());
            assert(words[4].len() != words[16].len());
            assert(words[5][0] != words[16][0]);
            assert(words[6].len() != words[16].len());
            assert(words[7].len() != words[16].len());
            assert(words[8].len() != words[16].len());
            assert(words[9].len() != words[16].len());
            assert(words[10].len() != words[16].len());
            assert(words[11].len() != words[16].len());
            assert(words[12].len() != words[16].len());
            assert(words[13].len() != words[16].len());
            assert(words[14].len() != words[16].len());
            assert(words[15].len() != words[16].len());
        }
    }
}

/// The edits of a merge touch each key path at most once.
pub proof fn lemma_cleo_edits_distinct(setup: CleoSetup, ca_path: Seq<char>)
    ensures
        distinct_paths(cleo_edits(setup, ca_path)),
{
    let es = cleo_edits(setup, ca_path);
    let lasts = es.map_values(|e: (KeyPath, crate::edits::ActionView)| e.0.last());
    let words: Seq<Seq<char>> = match setup.auth_config {
        AuthConfig::Disabled => {
            lemma_disabled_words_distinct();
            seq!["network"@, "carl"@, "host"@, "port"@, "oidc"@, "enabled"@]
        },
        AuthConfig::Enabled { .. } => {
            lemma_enabled_words_distinct();
            seq![
            "network"@, "carl"@, "host"@, "port"@, "oidc"@, "tls"@, "domain"@, "name"@,
        "enabled"@, "ca"@, "override"@, "client"@, "issuer"@, "id"@, "secret"@, "scopes"@,
        "url"@,
            ]
        },
    };
    assert(lasts =~= words);
    assert forall|i: int, j: int| 0 <= i < es.len() && 0 <= j < es.len() && i != j implies es[i].0
        != es[j].0 by {
        if i < j {
            assert(words[i] != words[j]);
        } else {
            assert(words[j] != words[i]);
        }
        assert(lasts[i] != lasts[j]);
    }
}

/// What merging `setup` into `d` gives, where the CA certificate is stored at `ca_path`.
pub open spec fn merged(setup: CleoSetup, ca_path: Seq<char>, d: DocView) -> DocView {
    apply_edits(d, cleo_edits(setup, ca_path))
}

/// Merging the same bundle with the same certificate path twice gives the same
/// document as merging it once.
pub proof fn law_merge_idempotent(setup: CleoSetup, ca_path: Seq<char>, d: DocView)
    requires
        unique_paths(d),
    ensures
        merged(setup, ca_path, merged(setup, ca_path, d)) == merged(setup, ca_path, d),
{
    lemma_cleo_edits_distinct(setup, ca_path);
    lemma_apply_idempotent(d, cleo_edits(setup, ca_path));
}

/// After a merge, `network.carl` holds the host of the service address and its
/// port, 443 where the address names none.
pub proof fn law_merge_carl(setup: CleoSetup, ca_path: Seq<char>, d: DocView)
    requires
        unique_paths(d),
        setup.carl.host is Some,
    ensures
        is_table(merged(setup, ca_path, d), key_of(seq!["network", "carl"])),
        lookup(merged(setup, ca_path, d), key_of(seq!["network", "carl", "host"])) == Some(
            SettingView::Str(host_of(setup)),
        ),
        lookup(merged(setup, ca_path, d), key_of(seq!["network", "carl", "port"])) == Some(
            SettingView::Int(port_of(setup.carl)),
        ),
{
    let es = cleo_edits(setup, ca_path);
    lemma_cleo_edits_distinct(setup, ca_path);
    lemma_apply_satisfies(d, es);
    assert(satisfied(merged(setup, ca_path, d), es[1]));
    assert(satisfied(merged(setup, ca_path, d), es[2]));
    assert(satisfied(merged(setup, ca_path, d), es[3]));
}

/// A service address without a port gives port 443.
pub proof fn law_merge_default_port(setup: CleoSetup, ca_path: Seq<char>, d: DocView)
    requires
        unique_paths(d),
        setup.carl.host is Some,
        setup.carl.port is None,
    ensures
        lookup(merged(setup, ca_path, d), key_of(seq!["network", "carl", "port"])) == Some(
            SettingView::Int(443),
        ),
{
    law_merge_carl(setup, ca_path, d);
}

/// With authentication disabled, a merge records the host and
/// `network.oidc.enabled = false`, and adds nothing under `network.tls`.
pub proof fn law_merge_disabled(setup: CleoSetup, ca_path: Seq<char>, d: DocView)
    requires
        unique_paths(d),
        setup.carl.host is Some,
        setup.auth_config is Disabled,
    ensures
        lookup(merged(setup, ca_path, d), key_of(seq!["network", "carl", "host"])) == Some(
            SettingView::Str(host_of(setup)),
        ),
        lookup(merged(setup, ca_path, d), key_of(seq!["network", "oidc", "enabled"])) == Some(
            SettingView::Bool(false),
        ),
        forall|q: KeyPath|
            under(q, key_of(seq!["network", "tls"])) && lookup(d, q) is None ==> #[trigger] lookup(
                merged(setup, ca_path, d),
                q,
            ) is None,
{
    reveal_strlit("tls");
    reveal_strlit("carl");
    reveal_strlit("oidc");
    let es = cleo_edits(setup, ca_path);
    law_merge_carl(setup, ca_path, d);
    lemma_cleo_edits_distinct(setup, ca_path);
    lemma_apply_satisfies(d, es);
    lemma_apply_frame(d, es);
    assert(satisfied(merged(setup, ca_path, d), es[5]));
    assert forall|q: KeyPath|
        under(q, key_of(seq!["network", "tls"])) && lookup(d, q) is None implies #[trigger] lookup(
            merged(setup, ca_path, d),
            q,
        ) is None by {
        assert(q[1] == q.take(2)[1]);
        assert(q[1] == "tls"@);
        if touches(es, q) {
            let i = choose|i: int| 0 <= i < es.len() && es[i].0 == q;
            assert(es[i].0.len() < 2 || es[i].0[1] == "carl"@ || es[i].0[1] == "oidc"@);
        }
    }
}

/// With authentication enabled, a merge records `network.oidc.enabled = true`,
/// the certificate path, the host as the TLS domain name, and the client
/// settings, the scopes joined by commas.
pub proof fn law_merge_enabled(setup: CleoSetup, ca_path: Seq<char>, d: DocView)
    requires
        unique_paths(d),
        setup.carl.host is Some,
        setup.auth_config is Enabled,
    ensures
        lookup(merged(setup, ca_path, d), key_of(seq!["network", "oidc", "enabled"])) == Some(
            SettingView::Bool(true),
        ),
        lookup(merged(setup, ca_path, d), key_of(seq!["network", "tls", "ca"])) == Some(
            SettingView::Str(ca_path),
        ),
        lookup(merged(setup, ca_path, d), key_of(seq!["network", "tls", "domain", "name", "override"]))
            == Some(SettingView::Str(host_of(setup))),
        setup.auth_config matches AuthConfig::Enabled { issuer_url, client_id, client_secret, scopes }
            ==> lookup(merged(setup, ca_path, d), key_of(seq!["network", "oidc", "client", "issuer", "url"]))
            == Some(SettingView::Str(issuer_url@)) && lookup(
            merged(setup, ca_path, d),
            key_of(seq!["network", "oidc", "client", "id"]),
        ) == Some(SettingView::Str(client_id@)) && lookup(
            merged(setup, ca_path, d),
            key_of(seq!["network", "oidc", "client", "secret"]),
        ) == Some(SettingView::Str(client_secret@)) && lookup(
            merged(setup, ca_path, d),
            key_of(seq!["network", "oidc", "client", "scopes"]),
        ) == Some(SettingView::Str(join_spec(strings_view(scopes@)))),
{
    let es = cleo_edits(setup, ca_path);
    lemma_cleo_edits_distinct(setup, ca_path);
    lemma_apply_satisfies(d, es);
    let m = merged(setup, ca_path, d);
    assert(satisfied(m, es[8]));
    assert(satisfied(m, es[9]));
    assert(satisfied(m, es[10]));
    assert(satisfied(m, es[13]));
    assert(satisfied(m, es[14]));
    assert(satisfied(m, es[15]));
    assert(satisfied(m, es[16]));
}


/// A configuration made from an empty document holds every entry inside groups,
/// so writing it out loses none.
pub proof fn law_configuration_grouped(setup: CleoSetup, ca_path: Seq<char>)
    ensures
        grouped(merged(setup, ca_path, Seq::empty())),
{
    let d = Seq::<(KeyPath, SettingView)>::empty();
    let es = cleo_edits(setup, ca_path);
    let m = merged(setup, ca_path, d);
    lemma_cleo_edits_distinct(setup, ca_path);
    lemma_apply_satisfies(d, es);
    lemma_apply_frame(d, es);
    assert forall|q: KeyPath| #[trigger] lookup(m, q) is Some implies parents_grouped(m, q) by {
        assert(!has_path(d, q));
        assert(touches(es, q));
        let i = choose|i: int| 0 <= i < es.len() && es[i].0 == q;
        match setup.auth_config {
            AuthConfig::Disabled => {
                if i == 1 {
                    assert(es[1].0.take(1) =~= es[0].0);
                    assert(satisfied(m, es[0]));
                } else if i == 2 {
                    assert(es[2].0.take(1) =~= es[0].0);
                    assert(satisfied(m, es[0]));
                    assert(es[2].0.take(2) =~= es[1].0);
                    assert(satisfied(m, es[1]));
                } else if i == 3 {
                    assert(es[3].0.take(1) =~= es[0].0);
                    assert(satisfied(m, es[0]));
                    assert(es[3].0.take(2) =~= es[1].0);
                    assert(satisfied(m, es[1]));
                } else if i == 4 {
                    assert(es[4].0.take(1) =~= es[0].0);
                    assert(satisfied(m, es[0]));
                } else if i == 5 {
                    assert(es[5].0.take(1) =~= es[0].0);
                    assert(satisfied(m, es[0]));
                    assert(es[5].0.take(2) =~= es[4].0);
                    assert(satisfied(m, es[4]));
                }
            },
            AuthConfig::Enabled { .. } => {
                if i == 1 {
                    assert(es[1].0.take(1) =~= es[0].0);
                    assert(satisfied(m, es[0]));
                } else if i == 2 {
                    assert(es[2].0.take(1) =~= es[0].0);
                    assert(satisfied(m, es[0]));
                    assert(es[2].0.take(2) =~= es[1].0);
                    assert(satisfied(m, es[1]));
                } else if i == 3 {
                    assert(es[3].0.take(1) =~= es[0].0);
                    assert(satisfied(m, es[0]));
                    assert(es[3].0.take(2) =~= es[1].0);
                    assert(satisfied(m, es[1]));
                } else if i == 4 {
                    assert(es[4].0.take(1) =~= es[0].0);
                    assert(satisfied(m, es[0]));
                } else if i == 5 {
                    assert(es[5].0.take(1) =~= es[0].0);
                    assert(satisfied(m, es[0]));
                } else if i == 6 {
                    assert(es[6].0.take(1) =~= es[0].0);
                    assert(satisfied(m, es[0]));
                    assert(es[6].0.take(2) =~= es[5].0);
                    assert(satisfied(m, es[5]));
                } else if i == 7 {
                    assert(es[7].0.take(1) =~= es[0].0);
                    assert(satisfied(m, es[0]));
                    assert(es[7].0.take(2) =~= es[5].0);
                    assert(satisfied(m, es[5]));
                    assert(es[7].0.take(3) =~= es[6].0);
                    assert(satisfied(m, es[6]));
                } else if i == 8 {
                    assert(es[8].0.take(1) =~= es[0].0);
                    assert(satisfied(m, es[0]));
                    assert(es[8].0.take(2) =~= es[4].0);
                    assert(satisfied(m, es[4]));
                } else if i == 9 {
                    assert(es[9].0.take(1) =~= es[0].0);
                    assert(satisfied(m, es[0]));
                    assert(es[9].0.take(2) =~= es[5].0);
                    assert(satisfied(m, es[5]));
                } else if i == 10 {
                    assert(es[10].0.take(1) =~= es[0].0);
                    assert(satisfied(m, es[0]));
                    assert(es[10].0.take(2) =~= es[5].0);
                    assert(satisfied(m, es[5]));
                    assert(es[10].0.take(3) =~= es[6].0);
                    assert(satisfied(m, es[6]));
                    assert(es[10].0.take(4) =~= es[7].0);
                    assert(satisfied(m, es[7]));
                } else if i == 11 {
                    assert(es[11].0.take(1) =~= es[0].0);
                    assert(satisfied(m, es[0]));
                    assert(es[11].0.take(2) =~= es[4].0);
                    assert(satisfied(m, es[4]));
                } else if i == 12 {
                    assert(es[12].0.take(1) =~= es[0].0);
                    assert(satisfied(m, es[0]));
                    assert(es[12].0.take(2) =~= es[4].0);
                    assert(satisfied(m, es[4]));
                    assert(es[12].0.take(3) =~= es[11].0);
                    assert(satisfied(m, es[11]));
                } else if i == 13 {
                    assert(es[13].0.take(1) =~= es[0].0);
                    assert(satisfied(m, es[0]));
                    assert(es[13].0.take(2) =~= es[4].0);
                    assert(satisfied(m, es[4]));
                    assert(es[13].0.take(3) =~= es[11].0);
                    assert(satisfied(m, es[11]));
                } else if i == 14 {
                    assert(es[14].0.take(1) =~= es[0].0);
                    assert(satisfied(m, es[0]));
                    assert(es[14].0.take(2) =~= es[4].0);
                    assert(satisfied(m, es[4]));
                    assert(es[14].0.take(3) =~= es[11].0);
                    assert(satisfied(m, es[11]));
                } else if i == 15 {
                    assert(es[15].0.take(1) =~= es[0].0);
                    assert(satisfied(m, es[0]));
                    assert(es[15].0.take(2) =~= es[4].0);
                    assert(satisfied(m, es[4]));
                    assert(es[15].0.take(3) =~= es[11].0);
                    assert(satisfied(m, es[11]));
                } else if i == 16 {
                    assert(es[16].0.take(1) =~= es[0].0);
                    assert(satisfied(m, es[0]));
                    assert(es[16].0.take(2) =~= es[4].0);
                    assert(satisfied(m, es[4]));
                    assert(es[16].0.take(3) =~= es[11].0);
                    assert(satisfied(m, es[11]));
                    assert(es[16].0.take(4) =~= es[12].0);
                    assert(satisfied(m, es[12]));
                }
            },
        }
    }
}

} // verus!
