//! The texts of the overview.

use vstd::prelude::*;

use crate::app::ServerConfig;
#[allow(unused_imports)]
use crate::lines::texts;
use crate::text::join_two;

verus! {

/// The line that tells where the proxy listens and what it stands in front of.
pub open spec fn overview_text(listen_addr: Seq<char>, upstream: Seq<char>) -> Seq<char> {
    "[tui] Listening on "@ + listen_addr + " and proxying to "@ + upstream + " (TUI coming soon)"@
}

/// The line of the dashboard that names the two addresses.
pub open spec fn addresses_text(listen_addr: Seq<char>, upstream: Seq<char>) -> Seq<char> {
    "Listen: "@ + listen_addr + "   Upstream: "@ + upstream
}

/// The lines of the dashboard.
pub open spec fn dashboard_texts(listen_addr: Seq<char>, upstream: Seq<char>) -> Seq<Seq<char>> {
    seq![
        "codex-usage-proxy"@,
        addresses_text(listen_addr, upstream),
        "Usage dashboard coming soon..."@,
    ]
}

/// The line that tells where the proxy listens and what it stands in front of.
pub fn overview_line(server: &ServerConfig) -> (line: String)
    ensures
        line@ == overview_text(server.listen_addr@, server.upstream_base_url@),
        line@ == "[tui] Listening on "@ + server.listen_addr@ + " and proxying to "@
            + server.upstream_base_url@ + " (TUI coming soon)"@,
{
    let listening: String = join_two("[tui] Listening on ", server.listen_addr.as_str());
    let proxying: String = join_two(listening.as_str(), " and proxying to ");
    let upstream: String = join_two(proxying.as_str(), server.upstream_base_url.as_str());
    join_two(upstream.as_str(), " (TUI coming soon)")
}

/// The lines of the dashboard.
pub fn dashboard_lines(server: &ServerConfig) -> (lines: Vec<String>)
    ensures
        texts(lines@) == dashboard_texts(server.listen_addr@, server.upstream_base_url@),
        lines@.len() == 3,
        lines@[0]@ == "codex-usage-proxy"@,
        lines@[1]@ == "Listen: "@ + server.listen_addr@ + "   Upstream: "@
            + server.upstream_base_url@,
        lines@[2]@ == "Usage dashboard coming soon..."@,
{
    let listen: String = join_two("Listen: ", server.listen_addr.as_str());
    let upstream: String = join_two(listen.as_str(), "   Upstream: ");
    let addresses: String = join_two(upstream.as_str(), server.upstream_base_url.as_str());
    let mut lines: Vec<String> = Vec::new();
    lines.push("codex-usage-proxy".to_owned());
    lines.push(addresses);
    lines.push("Usage dashboard coming soon...".to_owned());
    assert(texts(lines@) =~= dashboard_texts(server.listen_addr@, server.upstream_base_url@));
    lines
}

/// The overview and the dashboard name both addresses in full.
pub proof fn law_overview_names_both_addresses(listen_addr: Seq<char>, upstream: Seq<char>)
    ensures
        overview_text(listen_addr, upstream) == "[tui] Listening on "@ + listen_addr
            + " and proxying to "@ + upstream + " (TUI coming soon)"@,
        dashboard_texts(listen_addr, upstream).len() == 3,
        dashboard_texts(listen_addr, upstream)[0] == "codex-usage-proxy"@,
        dashboard_texts(listen_addr, upstream)[1] == "Listen: "@ + listen_addr + "   Upstream: "@
            + upstream,
        dashboard_texts(listen_addr, upstream)[2] == "Usage dashboard coming soon..."@,
{
}

} // verus!
