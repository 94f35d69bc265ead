//! The fixed text of the pages.

use vstd::prelude::*;

verus! {

/// Start of every page, up to the opening of its title.
pub const PAGE_OPEN: &'static str = r##"<!DOCTYPE html>
<html lang="en">
<head>
  <meta charset="utf-8">
  <meta name="viewport" content="width=device-width, initial-scale=1">
  <title>"##;

/// End of the title; the stylesheet link follows.
pub const TITLE_CLOSE: &'static str = r##"</title>
  "##;

/// Style block of the index and the opening of its heading.
pub const INDEX_STYLE: &'static str = r##"
  <style>
    .container {
      max-width: 600px;
      margin: 0 auto;
      padding: 3rem 1.5rem;
    }
    h1 {
      font-size: 2rem;
      font-weight: 700;
      margin-bottom: 0.5rem;
      letter-spacing: -0.02em;
    }
    .tagline {
      color: var(--text-tertiary);
      margin-bottom: 0.5rem;
    }
    .meta-links {
      color: var(--text-tertiary);
      font-size: 0.875rem;
      margin-bottom: 1.5rem;
    }
    .meta-link {
      color: var(--text-tertiary);
      text-decoration: none;
      transition: color 0.2s ease;
    }
    .meta-link:hover {
      color: var(--ruby-red);
    }
    .success-msg {
      color: var(--accent-green);
      background: var(--accent-green-bg);
      padding: 0.75rem 1rem;
      border-radius: 0.5rem;
      margin-bottom: 1.5rem;
      border-left: 3px solid var(--accent-green);
    }
    .subscribe-form {
      display: flex;
      gap: 0.5rem;
      margin-bottom: 2rem;
    }
    .subscribe-form input {
      flex: 1;
      padding: 0.75rem 1rem;
      background: var(--bg-card);
      border: 1px solid var(--border-white-light);
      border-radius: 0.5rem;
      color: var(--text-primary);
      font-size: 1rem;
    }
    .subscribe-form input::placeholder {
      color: var(--text-tertiary);
    }
    .subscribe-form input:focus {
      outline: none;
      border-color: var(--ruby-red);
    }
    .subscribe-form button {
      padding: 0.75rem 1.5rem;
      background: linear-gradient(135deg, var(--ruby-red) 0%, var(--ruby-red-light) 100%);
      color: white;
      border: none;
      border-radius: 0.5rem;
      font-weight: 600;
      cursor: pointer;
      transition: transform 0.2s ease, box-shadow 0.2s ease;
    }
    .subscribe-form button:hover {
      transform: translateY(-1px);
      box-shadow: 0 4px 12px rgba(204, 52, 45, 0.3);
    }
    h2 {
      font-size: 1rem;
      font-weight: 600;
      text-transform: uppercase;
      letter-spacing: 0.05em;
      color: var(--text-tertiary);
      margin-bottom: 1rem;
    }
    ul {
      list-style: none;
    }
    li {
      margin: 0.5rem 0;
    }
    li a {
      display: flex;
      justify-content: space-between;
      align-items: center;
      padding: 0.75rem 1rem;
      background: var(--bg-card);
      border: 1px solid var(--border-white-subtle);
      border-radius: 0.5rem;
      color: var(--text-secondary);
      text-decoration: none;
      transition: all 0.2s ease;
    }
    li a:hover {
      border-color: var(--ruby-red);
      color: var(--text-primary);
      transform: translateX(4px);
    }
    .arrow {
      color: var(--text-tertiary);
      transition: transform 0.2s ease, color 0.2s ease;
    }
    li a:hover .arrow {
      color: var(--ruby-red);
      transform: translateX(4px);
    }
    @media (max-width: 480px) {
      .subscribe-form {
        flex-direction: column;
      }
      .subscribe-form button {
        width: 100%;
      }
    }
  </style>
</head>
<body>
  <div class="container">
    <h1>"##;

/// End of the heading and the tagline under it.
pub const INDEX_TAGLINE: &'static str = r##"</h1>
    <p class="tagline">Daily briefing on geopolitics, tech, and privacy. All sides. No fluff.</p>
    "##;

/// Line break between the optional parts of the index.
pub const SLOT_BREAK: &'static str = r##"
    "##;

/// Heading and opening of the list of digests.
pub const INDEX_LIST_OPEN: &'static str = r##"
    <h2>Recent Digests</h2>
    <ul>
      "##;

/// End of the list of digests and of the index.
pub const INDEX_CLOSE: &'static str = r##"
    </ul>
  </div>
</body>
</html>"##;

/// Banner shown after a subscription.
pub const SUCCESS_BANNER: &'static str = r##"<div class="success-msg">Thanks for subscribing! You'll receive the next digest.</div>"##;

/// Form that posts an address to the subscription endpoint.
pub const SUBSCRIBE_FORM: &'static str = r##"<form method="post" action="/subscribe" class="subscribe-form">
        <input type="email" name="email" placeholder="your@email.com" required>
        <button type="submit">Subscribe</button>
      </form>"##;

/// Opening of a list entry, up to the path of its digest.
pub const ENTRY_OPEN: &'static str = r##"<li><a href="/"##;

/// Between the path of a digest and its label.
pub const ENTRY_LABEL_OPEN: &'static str = r##""><span class="date-text">"##;

/// End of a list entry.
pub const ENTRY_CLOSE: &'static str = r##"</span><span class="arrow">→</span></a></li>"##;

/// Line break between two list entries.
pub const ENTRY_BREAK: &'static str = r##"
      "##;

/// Opening of a link, up to its target.
pub const ANCHOR_OPEN: &'static str = r##"<a href=""##;

/// Between the target of a footer link and its label.
pub const META_ANCHOR_LABEL_OPEN: &'static str = r##"" class="meta-link">"##;

/// End of a link.
pub const ANCHOR_CLOSE: &'static str = r##"</a>"##;

/// Label of the link to the source code.
pub const SOURCE_LABEL: &'static str = r##"GitHub"##;

/// Link to the statistics page.
pub const STATS_LINK: &'static str = r##"<a href="/stats" class="meta-link">Stats</a>"##;

/// Opening of the line of footer links.
pub const META_OPEN: &'static str = r##"<p class="meta-links">"##;

/// Separator between two footer links.
pub const META_SEPARATOR: &'static str = r##" · "##;

/// End of the line of footer links.
pub const META_CLOSE: &'static str = r##"</p>"##;

/// Opening of the stylesheet link, up to its target.
pub const STYLESHEET_OPEN: &'static str = r##"<link rel="stylesheet" href=""##;

/// End of the stylesheet link.
pub const STYLESHEET_CLOSE: &'static str = r##"">"##;

/// What the title of the statistics page starts with.
pub const STATS_TITLE_PREFIX: &'static str = r##"Stats – "##;

/// Style block of the statistics page and the opening of its subtitle.
pub const STATS_STYLE: &'static str = r##"
  <style>
    .container {
      max-width: 900px;
      margin: 0 auto;
      padding: 2rem 1.5rem;
    }
    h1 {
      font-size: 1.75rem;
      font-weight: 700;
      margin-bottom: 0.25rem;
      letter-spacing: -0.02em;
    }
    .subtitle {
      color: var(--text-tertiary);
      margin-bottom: 2rem;
    }
    .period-select {
      margin-bottom: 2rem;
    }
    .period-select a {
      display: inline-block;
      padding: 0.5rem 1rem;
      margin-right: 0.5rem;
      background: var(--bg-card);
      border: 1px solid var(--border-white-subtle);
      border-radius: 0.5rem;
      color: var(--text-secondary);
      text-decoration: none;
      font-size: 0.875rem;
    }
    .period-select a:hover,
    .period-select a.active {
      border-color: var(--ruby-red);
      color: var(--text-primary);
    }
    .period-select a.active {
      background: var(--ruby-red);
      color: white;
      border-color: var(--ruby-red);
    }
    section {
      margin-bottom: 3rem;
    }
    h2 {
      font-size: 1rem;
      font-weight: 600;
      text-transform: uppercase;
      letter-spacing: 0.05em;
      color: var(--text-tertiary);
      margin-bottom: 1rem;
    }
    table {
      width: 100%;
      border-collapse: collapse;
      font-size: 0.875rem;
    }
    th, td {
      padding: 0.75rem 1rem;
      text-align: left;
      border-bottom: 1px solid var(--border-white-subtle);
    }
    th {
      background: var(--bg-card);
      font-weight: 600;
      color: var(--text-secondary);
    }
    td {
      color: var(--text-primary);
    }
    td.empty {
      color: var(--text-tertiary);
      font-style: italic;
      text-align: center;
    }
    .good { color: var(--accent-green, #22c55e); }
    .warn { color: var(--accent-yellow, #eab308); }
    .bad { color: var(--ruby-red); }
    .back-link {
      display: inline-block;
      margin-bottom: 1.5rem;
      color: var(--text-tertiary);
      text-decoration: none;
      font-size: 0.875rem;
    }
    .back-link:hover {
      color: var(--ruby-red);
    }
    @media (max-width: 600px) {
      table {
        font-size: 0.75rem;
      }
      th, td {
        padding: 0.5rem;
      }
    }
  </style>
</head>
<body>
  <div class="container">
    <a href="/" class="back-link">← Back to digests</a>
    <h1>Stats</h1>
    <p class="subtitle">Source health and usage over the last "##;

/// End of the subtitle and opening of the period selector.
pub const PERIODS_OPEN: &'static str = r##" days</p>

    <div class="period-select">
      "##;

/// Opening of a period link, up to its number of days.
pub const PERIOD_OPEN: &'static str = r##"<a href="/stats?days="##;

/// End of the target of a period link.
pub const PERIOD_TARGET_CLOSE: &'static str = r##"""##;

/// Mark of the period that is shown.
pub const PERIOD_ACTIVE: &'static str = r##" class="active""##;

/// Between the opening tag of a period link and its label.
pub const PERIOD_LABEL_OPEN: &'static str = r##">"##;

/// End of a period link.
pub const PERIOD_CLOSE: &'static str = r##" days</a>"##;

/// Line break between two period links.
pub const PERIOD_BREAK: &'static str = r##"
      "##;

/// End of the period selector and head of the health table.
pub const HEALTH_TABLE_OPEN: &'static str = r##"
    </div>

    <section>
      <h2>Source Health</h2>
      <table>
        <thead>
          <tr>
            <th>Source</th>
            <th>Fetches</th>
            <th>Successes</th>
            <th>Rate</th>
          </tr>
        </thead>
        <tbody>
          "##;

/// End of the health table and head of the usage table.
pub const USAGE_TABLE_OPEN: &'static str = r##"
        </tbody>
      </table>
    </section>

    <section>
      <h2>Source Usage in Digests</h2>
      <table>
        <thead>
          <tr>
            <th>Source</th>
            <th>Must Know</th>
            <th>Should Know</th>
            <th>Other</th>
            <th>Total</th>
          </tr>
        </thead>
        <tbody>
          "##;

/// End of the usage table and head of the runs table.
pub const RUNS_TABLE_OPEN: &'static str = r##"
        </tbody>
      </table>
    </section>

    <section>
      <h2>Recent Runs</h2>
      <table>
        <thead>
          <tr>
            <th>Time (UTC)</th>
            <th>Articles Fetched</th>
            <th>Recipients</th>
          </tr>
        </thead>
        <tbody>
          "##;

/// End of the runs table and of the statistics page.
pub const STATS_CLOSE: &'static str = r##"
        </tbody>
      </table>
    </section>
  </div>
</body>
</html>"##;

/// Row of a health table without data.
pub const HEALTH_EMPTY: &'static str = r##"<tr><td colspan="4" class="empty">No data yet</td></tr>"##;

/// Row of a usage table without data.
pub const USAGE_EMPTY: &'static str = r##"<tr><td colspan="5" class="empty">No data yet</td></tr>"##;

/// Row of a runs table without data.
pub const RUNS_EMPTY: &'static str = r##"<tr><td colspan="3" class="empty">No runs yet</td></tr>"##;

/// Opening of a table row and of its first cell.
pub const ROW_OPEN: &'static str = r##"<tr>
                        <td>"##;

/// End of a cell and opening of the next.
pub const CELL_BREAK: &'static str = r##"</td>
                        <td>"##;

/// End of a cell and opening of the rate cell, up to its class.
pub const RATE_CELL_OPEN: &'static str = r##"</td>
                        <td class=""##;

/// End of the class of the rate cell.
pub const RATE_CLASS_CLOSE: &'static str = r##"">"##;

/// Percent sign after a rate.
pub const RATE_CLOSE: &'static str = r##"%"##;

/// End of the last cell and of its row.
pub const ROW_CLOSE: &'static str = r##"</td>
                    </tr>"##;

/// End of a cell and opening of the emphasised total.
pub const TOTAL_CELL_OPEN: &'static str = r##"</td>
                        <td><strong>"##;

/// End of the emphasis of a total.
pub const TOTAL_CLOSE: &'static str = r##"</strong>"##;

/// Class of a rate of at least 95 percent.
pub const RATE_GOOD: &'static str = r##"good"##;

/// Class of a rate of at least 80 percent.
pub const RATE_WARN: &'static str = r##"warn"##;

/// Class of a lower rate.
pub const RATE_BAD: &'static str = r##"bad"##;

/// Style block of the navigation bar of a digest.
pub const NAV_STYLE: &'static str = r##"<style>
.digest-nav {
    max-width: 820px;
    margin: 0 auto;
    padding: 12px 16px;
    display: flex;
    justify-content: space-between;
    align-items: center;
    font-family: -apple-system, BlinkMacSystemFont, 'Segoe UI', Roboto, sans-serif;
    font-size: 14px;
}
.digest-nav a {
    color: var(--text-muted, #777);
    text-decoration: none;
}
.digest-nav a:hover {
    color: var(--accent, #c45a3b);
}
</style>"##;

/// Navigation bar of a digest.
pub const NAV_BAR: &'static str = r##"<nav class="digest-nav">
    <a href="/">← All digests</a>
    <a href="/">Subscribe</a>
</nav>"##;

/// The tag that closes the head of a document.
pub const HEAD_CLOSE: &'static str = r##"</head>"##;

/// The tag that opens the body of a document.
pub const BODY_OPEN: &'static str = r##"<body>"##;

} // verus!
