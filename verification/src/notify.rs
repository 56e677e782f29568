//! Discord notifications: which events a project's webhook is told about,
//! whom they mention, and the messages sent.
use vstd::prelude::*;
use crate::events::Event;
use crate::models::{Build, BuildStatus, Project, Slot, slot_text};
use crate::settings::utf8_len;
use crate::text::{append_chars, append_str, chars, contains_str, contains_seq, from_chars, i64_text, int_text, join, join_seq, str_eq, u64_text, nat_text, views, lemma_views_push};

verus! {

/// The colours of message embeds.
pub struct EmbedColor;

impl EmbedColor {
    /// Green.
    pub const SUCCESS: u32 = 0x00ff00;
    /// Red.
    pub const FAILURE: u32 = 0xff0000;
    /// Blue.
    pub const INFO: u32 = 0x3498db;
    /// Orange.
    pub const WARNING: u32 = 0xffaa00;
}

/// A message to a Discord webhook.
#[derive(Debug, Clone)]
pub struct DiscordMessage {
    pub content: Option<String>,
    pub embeds: Option<Vec<DiscordEmbed>>,
    pub username: Option<String>,
    pub avatar_url: Option<String>,
}

/// A rich block of a message.
#[derive(Debug, Clone)]
pub struct DiscordEmbed {
    pub title: Option<String>,
    pub description: Option<String>,
    pub color: Option<u32>,
    pub fields: Option<Vec<EmbedField>>,
    pub timestamp: Option<String>,
    pub footer: Option<EmbedFooter>,
    pub author: Option<EmbedAuthor>,
}

/// A named value of an embed.
#[derive(Debug, Clone)]
pub struct EmbedField {
    pub name: String,
    pub value: String,
    pub inline: Option<bool>,
}

/// The footer of an embed.
#[derive(Debug, Clone)]
pub struct EmbedFooter {
    pub text: String,
    pub icon_url: Option<String>,
}

/// The author line of an embed.
#[derive(Debug, Clone)]
pub struct EmbedAuthor {
    pub name: String,
    pub url: Option<String>,
    pub icon_url: Option<String>,
}

/// A project's Discord webhook and what it is told.
#[derive(Debug, Clone)]
pub struct DiscordWebhookConfig {
    pub id: i64,
    pub label: String,
    pub webhook_url: String,
    pub enabled: bool,
    pub notify_on_build_start: bool,
    pub notify_on_build_success: bool,
    pub notify_on_build_failure: bool,
    pub notify_on_deploy_start: bool,
    pub notify_on_deploy_success: bool,
    pub notify_on_deploy_failure: bool,
    pub mention_user_ids: Vec<String>,
    pub mention_role_ids: Vec<String>,
    pub mention_on_failure_only: bool,
}

/// The texts of a vector of strings.
pub open spec fn texts(v: Seq<String>) -> Seq<Seq<char>> {
    v.map_values(|s: String| s@)
}

/// The mentions of a message: each user as `<@id>`, then each role as
/// `<@&id>`; none for a message that reports no failure when mentions are
/// for failures only.
pub open spec fn mentions_of(c: DiscordWebhookConfig, is_failure: bool) -> Seq<Seq<char>> {
    if !is_failure && c.mention_on_failure_only {
        seq![]
    } else {
        texts(c.mention_user_ids@).map_values(|u: Seq<char>| "<@"@ + u + ">"@) + texts(
            c.mention_role_ids@,
        ).map_values(|r: Seq<char>| "<@&"@ + r + ">"@)
    }
}

impl DiscordWebhookConfig {
    /// The mentions of a message (see `mentions_of`).
    pub fn get_mentions(&self, is_failure: bool) -> (r: Vec<String>)
        ensures
            texts(r@) == mentions_of(*self, is_failure),
    {
        let mut out: Vec<String> = Vec::new();
        if !is_failure && self.mention_on_failure_only {
            assert(texts(out@) =~= Seq::<Seq<char>>::empty());
            return out;
        }
        let ghost users = texts(self.mention_user_ids@).map_values(|u: Seq<char>| "<@"@ + u + ">"@);
        let ghost roles = texts(self.mention_role_ids@).map_values(|r: Seq<char>| "<@&"@ + r + ">"@);
        let mut i: usize = 0;
        while i < self.mention_user_ids.len()
            invariant
                i <= self.mention_user_ids@.len(),
                users == texts(self.mention_user_ids@).map_values(|u: Seq<char>| "<@"@ + u + ">"@),
                texts(out@) == users.take(i as int),
            decreases self.mention_user_ids@.len() - i,
        {
            let mut m = chars("<@");
            append_str(&mut m, self.mention_user_ids[i].as_str());
            append_str(&mut m, ">");
            let ghost before = texts(out@);
            out.push(from_chars(m.as_slice()));
            assert(texts(out@) =~= before.push(m@));
            assert(users.take(i + 1) =~= users.take(i as int).push(m@));
            i = i + 1;
        }
        assert(users.take(self.mention_user_ids@.len() as int) =~= users);
        let mut j: usize = 0;
        assert(users + roles.take(0) =~= users);
        while j < self.mention_role_ids.len()
            invariant
                j <= self.mention_role_ids@.len(),
                roles == texts(self.mention_role_ids@).map_values(|r: Seq<char>| "<@&"@ + r + ">"@),
                texts(out@) == users + roles.take(j as int),
            decreases self.mention_role_ids@.len() - j,
        {
            let mut m = chars("<@&");
            append_str(&mut m, self.mention_role_ids[j].as_str());
            append_str(&mut m, ">");
            let ghost before = texts(out@);
            out.push(from_chars(m.as_slice()));
            assert(texts(out@) =~= before.push(m@));
            assert(users + roles.take(j + 1) =~= (users + roles.take(j as int)).push(m@));
            j = j + 1;
        }
        assert(roles.take(self.mention_role_ids@.len() as int) =~= roles);
        out
    }
}

/// The current UTC time in RFC 3339 form.
///
/// Trusted: `chrono::Utc::now` and `DateTime::to_rfc3339`. The result
/// depends on the clock, so nothing is stated of it.
#[verifier::external_body]
fn utc_now() -> String {
    chrono::Utc::now().to_rfc3339()
}

/// The seconds from one RFC 3339 time to another (as `TimeDelta::num_seconds`,
/// rounded toward zero); none when either does not parse.
pub uninterp spec fn rfc3339_elapsed_seconds(started: Seq<char>, finished: Seq<char>) -> Option<i64>;

/// The seconds from one RFC 3339 time to another.
///
/// Trusted: `DateTime::parse_from_rfc3339` on both, their difference and
/// `TimeDelta::num_seconds`. The result is named `rfc3339_elapsed_seconds`.
#[verifier::external_body]
fn elapsed_seconds(started: &str, finished: &str) -> (r: Option<i64>)
    ensures
        r == rfc3339_elapsed_seconds(started@, finished@),
{
    let s = chrono::DateTime::parse_from_rfc3339(started).ok()?;
    let f = chrono::DateTime::parse_from_rfc3339(finished).ok()?;
    Some((f - s).num_seconds())
}

/// The first seven bytes of a commit hash (all of it when shorter), taken
/// at character boundaries.
pub open spec fn short_hash(h: Seq<char>, k: int) -> Seq<char>
    decreases h.len(),
{
    if h.len() == 0 || utf8_len(h.take(1)) > k {
        seq![]
    } else {
        seq![h[0]] + short_hash(h.drop_first(), k - utf8_len(h.take(1)))
    }
}

/// Seven bytes into the hash fall on a character boundary (or past its end),
/// so the first seven bytes can be cut out.
pub open spec fn hash_cut_ok(h: Seq<char>) -> bool {
    utf8_len(short_hash(h, 7)) == if utf8_len(h) < 7 {
        utf8_len(h)
    } else {
        7
    }
}


/// The UTF-8 width of one character.
fn char_width(c: char) -> (r: usize)
    ensures
        r == utf8_len(seq![c]),
        1 <= r <= 4,
{
    assert(seq![c].drop_last() =~= Seq::<char>::empty());
    assert(seq![c].last() == c);
    assert(utf8_len(Seq::<char>::empty()) == 0);
    let u = c as u32;
    if u < 0x80 {
        1
    } else if u < 0x800 {
        2
    } else if u < 0x10000 {
        3
    } else {
        4
    }
}

/// The first seven bytes of a commit hash (see `short_hash`).
fn short_hash_exec(h: &[char]) -> (r: Vec<char>)
    ensures
        r@ == short_hash(h@, 7),
{
    let mut out: Vec<char> = Vec::new();
    let mut k: usize = 7;
    let mut i: usize = 0;
    assert(h@.skip(0) =~= h@);
    loop
        invariant
            i <= h@.len(),
            k <= 7,
            short_hash(h@, 7) == out@ + short_hash(h@.skip(i as int), k as int),
        decreases h@.len() - i,
    {
        if i == h.len() {
            assert(h@.skip(i as int).len() == 0);
            assert(out@ + Seq::<char>::empty() =~= out@);
            return out;
        }
        let ghost rest = h@.skip(i as int);
        assert(rest.take(1) =~= seq![h@[i as int]]);
        let w = char_width(h[i]);
        if w > k {
            assert(out@ + Seq::<char>::empty() =~= out@);
            return out;
        }
        assert(rest.drop_first() =~= h@.skip(i + 1));
        assert(out@ + (seq![h@[i as int]] + short_hash(rest.drop_first(), k - w)) =~= out@.push(h@[i as int])
            + short_hash(h@.skip(i + 1), (k - w) as int));
        out.push(h[i]);
        k = k - w;
        i = i + 1;
    }
}

/// A field of an embed as plain values.
pub open spec fn field_model(f: EmbedField) -> (Seq<char>, Seq<char>, Option<bool>) {
    (f.name@, f.value@, f.inline)
}

/// The text of an optional string.
pub open spec fn opt_text(o: Option<String>) -> Option<Seq<char>> {
    match o {
        Some(s) => Some(s@),
        None => None,
    }
}

/// `m` is a message of the agent: one embed with the given title,
/// description, colour and fields, a timestamp, the agent's footer and name.
pub open spec fn agent_message(
    m: DiscordMessage,
    content: Option<Seq<char>>,
    title: Seq<char>,
    description: Seq<char>,
    color: u32,
    fields: Seq<(Seq<char>, Seq<char>, Option<bool>)>,
) -> bool {
    &&& opt_text(m.content) == content
    &&& opt_text(m.username) == Some("Easy CI/CD"@)
    &&& m.avatar_url is None
    &&& m.embeds matches Some(es) && es@.len() == 1 && {
        let e = es@[0];
        &&& opt_text(e.title) == Some(title)
        &&& opt_text(e.description) == Some(description)
        &&& e.color == Some(color)
        &&& e.fields matches Some(fs) && fs@.map_values(|f: EmbedField| field_model(f)) == fields
        &&& e.timestamp is Some
        &&& e.footer matches Some(ft) && ft.text@ == "Easy CI/CD"@ && ft.icon_url is None
        &&& e.author is None
    }
}

/// A field of an embed.
fn field(name: &str, value: String, inline: bool) -> (r: EmbedField)
    ensures
        field_model(r) == (name@, value@, Some(inline)),
{
    EmbedField { name: name.to_owned(), value, inline: Some(inline) }
}

/// A message of the agent (see `agent_message`).
fn agent_message_exec(
    content: Option<String>,
    title: String,
    description: String,
    color: u32,
    fields: Vec<EmbedField>,
) -> (r: DiscordMessage)
    ensures
        agent_message(
            r,
            opt_text(content),
            title@,
            description@,
            color,
            fields@.map_values(|f: EmbedField| field_model(f)),
        ),
{
    let embed = DiscordEmbed {
        title: Some(title),
        description: Some(description),
        color: Some(color),
        fields: Some(fields),
        timestamp: Some(utc_now()),
        footer: Some(EmbedFooter { text: "Easy CI/CD".to_owned(), icon_url: None }),
        author: None,
    };
    let mut embeds: Vec<DiscordEmbed> = Vec::new();
    embeds.push(embed);
    DiscordMessage { content, embeds: Some(embeds), username: Some("Easy CI/CD".to_owned()), avatar_url: None }
}

/// `prefix`, a text, `suffix`.
fn wrap(prefix: &str, middle: &str, suffix: &str) -> (r: String)
    ensures
        r@ == prefix@ + middle@ + suffix@,
{
    let mut v = chars(prefix);
    append_str(&mut v, middle);
    append_str(&mut v, suffix);
    from_chars(v.as_slice())
}

/// `prefix`, a number, `suffix`.
fn wrap_num(prefix: &str, n: i64, suffix: &str) -> (r: String)
    ensures
        r@ == prefix@ + int_text(n as int) + suffix@,
{
    let mut v = chars(prefix);
    append_chars(&mut v, i64_text(n).as_slice());
    append_str(&mut v, suffix);
    from_chars(v.as_slice())
}

/// The link field value: a markdown link with `label`, or `N/A`.
pub open spec fn link_value(label: Seq<char>, url: Option<Seq<char>>) -> Seq<char> {
    match url {
        Some(u) => "["@ + label + "]("@ + u + ")"@,
        None => "N/A"@,
    }
}

fn link_value_exec(label: &str, url: Option<&str>) -> (r: String)
    ensures
        r@ == link_value(
            label@,
            match url {
                Some(u) => Some(u@),
                None => None,
            },
        ),
{
    match url {
        Some(u) => {
            let mut v = chars("[");
            append_str(&mut v, label);
            append_str(&mut v, "](");
            append_str(&mut v, u);
            append_str(&mut v, ")");
            from_chars(v.as_slice())
        },
        None => "N/A".to_owned(),
    }
}

/// The error field value: the error in backquotes, or a hint to read the log.
pub open spec fn error_value(e: Option<Seq<char>>) -> Seq<char> {
    match e {
        Some(x) => "`"@ + x + "`"@,
        None => "로그를 확인해주세요"@,
    }
}

fn error_value_exec(e: Option<&str>) -> (r: String)
    ensures
        r@ == error_value(
            match e {
                Some(x) => Some(x@),
                None => None,
            },
        ),
{
    match e {
        Some(x) => wrap("`", x, "`"),
        None => "로그를 확인해주세요".to_owned(),
    }
}

/// The mentions as message content: none when there are none, else joined by spaces.
pub open spec fn mention_content(mentions: Seq<Seq<char>>) -> Option<Seq<char>> {
    if mentions.len() == 0 {
        None
    } else {
        Some(join_seq(mentions, " "@))
    }
}

fn mention_content_exec(mentions: &Vec<String>) -> (r: Option<String>)
    ensures
        opt_text(r) == mention_content(texts(mentions@)),
{
    if mentions.len() == 0 {
        return None;
    }
    let mut parts: Vec<Vec<char>> = Vec::new();
    let mut i: usize = 0;
    while i < mentions.len()
        invariant
            i <= mentions@.len(),
            views(parts@) == texts(mentions@).take(i as int),
        decreases mentions@.len() - i,
    {
        let c = chars(mentions[i].as_str());
        proof {
            lemma_views_push(parts@, c);
            assert(texts(mentions@).take(i + 1) =~= texts(mentions@).take(i as int).push(c@));
        }
        parts.push(c);
        i = i + 1;
    }
    assert(texts(mentions@).take(mentions@.len() as int) =~= texts(mentions@));
    Some(from_chars(join(&parts, " ").as_slice()))
}

/// The text of an optional string slice.
pub open spec fn opt_str(o: Option<&str>) -> Option<Seq<char>> {
    match o {
        Some(s) => Some(s@),
        None => None,
    }
}

/// Builds the agent's Discord messages.
pub struct DiscordClient;

impl DiscordClient {
    /// The message that a build started.
    pub fn build_started_message(
        &self,
        project_name: &str,
        build_number: i64,
        branch: &str,
        commit_hash: &str,
        author: Option<&str>,
    ) -> (r: DiscordMessage)
        requires
            hash_cut_ok(commit_hash@),
        ensures
            agent_message(
                r,
                None,
                "🔨 빌드 #"@ + int_text(build_number as int) + " 시작"@,
                "프로젝트 **"@ + project_name@ + "**의 빌드가 시작되었습니다."@,
                EmbedColor::INFO,
                seq![
                    ("브랜치"@, "`"@ + branch@ + "`"@, Some(true)),
                    ("커밋"@, "`"@ + short_hash(commit_hash@, 7) + "`"@, Some(true)),
                    ("작성자"@, match author { Some(a) => a@, None => "Unknown"@ }, Some(true)),
                ],
            ),
    {
        let short = short_hash_exec(chars(commit_hash).as_slice());
        let mut fields: Vec<EmbedField> = Vec::new();
        fields.push(field("브랜치", wrap("`", branch, "`"), true));
        fields.push(field("커밋", wrap("`", from_chars(short.as_slice()).as_str(), "`"), true));
        fields.push(
            field(
                "작성자",
                match author {
                    Some(a) => a.to_owned(),
                    None => "Unknown".to_owned(),
                },
                true,
            ),
        );
        assert(fields@.map_values(|f: EmbedField| field_model(f)) =~= seq![
            ("브랜치"@, "`"@ + branch@ + "`"@, Some(true)),
            ("커밋"@, "`"@ + short_hash(commit_hash@, 7) + "`"@, Some(true)),
            ("작성자"@, match author { Some(a) => a@, None => "Unknown"@ }, Some(true)),
        ]);
        let r = agent_message_exec(
            None,
            wrap_num("🔨 빌드 #", build_number, " 시작"),
            wrap("프로젝트 **", project_name, "**의 빌드가 시작되었습니다."),
            EmbedColor::INFO,
            fields,
        );
        r
    }

    /// The message that a build succeeded.
    pub fn build_success_message(
        &self,
        project_name: &str,
        build_number: i64,
        branch: &str,
        duration_seconds: u64,
        build_url: Option<&str>,
    ) -> (r: DiscordMessage)
        ensures
            agent_message(
                r,
                None,
                "✅ 빌드 #"@ + int_text(build_number as int) + " 성공"@,
                "프로젝트 **"@ + project_name@ + "**의 빌드가 성공했습니다!"@,
                EmbedColor::SUCCESS,
                seq![
                    ("브랜치"@, "`"@ + branch@ + "`"@, Some(true)),
                    ("빌드 시간"@, nat_text(duration_seconds as nat) + "초"@, Some(true)),
                    ("링크"@, link_value("빌드 로그 보기"@, opt_str(build_url)), Some(false)),
                ],
            ),
    {
        let mut d = u64_text(duration_seconds);
        append_str(&mut d, "초");
        let mut fields: Vec<EmbedField> = Vec::new();
        fields.push(field("브랜치", wrap("`", branch, "`"), true));
        fields.push(field("빌드 시간", from_chars(d.as_slice()), true));
        fields.push(field("링크", link_value_exec("빌드 로그 보기", build_url), false));
        assert(fields@.map_values(|f: EmbedField| field_model(f)) =~= seq![
            ("브랜치"@, "`"@ + branch@ + "`"@, Some(true)),
            ("빌드 시간"@, nat_text(duration_seconds as nat) + "초"@, Some(true)),
            ("링크"@, link_value("빌드 로그 보기"@, opt_str(build_url)), Some(false)),
        ]);
        agent_message_exec(
            None,
            wrap_num("✅ 빌드 #", build_number, " 성공"),
            wrap("프로젝트 **", project_name, "**의 빌드가 성공했습니다!"),
            EmbedColor::SUCCESS,
            fields,
        )
    }

    /// The message that a build failed, mentioning whom the webhook names.
    pub fn build_failure_message(
        &self,
        project_name: &str,
        build_number: i64,
        branch: &str,
        error_message: Option<&str>,
        build_url: Option<&str>,
        mentions: Vec<String>,
    ) -> (r: DiscordMessage)
        ensures
            agent_message(
                r,
                mention_content(texts(mentions@)),
                "❌ 빌드 #"@ + int_text(build_number as int) + " 실패"@,
                "프로젝트 **"@ + project_name@ + "**의 빌드가 실패했습니다."@,
                EmbedColor::FAILURE,
                seq![
                    ("브랜치"@, "`"@ + branch@ + "`"@, Some(true)),
                    ("에러"@, error_value(opt_str(error_message)), Some(false)),
                    ("링크"@, link_value("빌드 로그 보기"@, opt_str(build_url)), Some(false)),
                ],
            ),
    {
        let mut fields: Vec<EmbedField> = Vec::new();
        fields.push(field("브랜치", wrap("`", branch, "`"), true));
        fields.push(field("에러", error_value_exec(error_message), false));
        fields.push(field("링크", link_value_exec("빌드 로그 보기", build_url), false));
        assert(fields@.map_values(|f: EmbedField| field_model(f)) =~= seq![
            ("브랜치"@, "`"@ + branch@ + "`"@, Some(true)),
            ("에러"@, error_value(opt_str(error_message)), Some(false)),
            ("링크"@, link_value("빌드 로그 보기"@, opt_str(build_url)), Some(false)),
        ]);
        agent_message_exec(
            mention_content_exec(&mentions),
            wrap_num("❌ 빌드 #", build_number, " 실패"),
            wrap("프로젝트 **", project_name, "**의 빌드가 실패했습니다."),
            EmbedColor::FAILURE,
            fields,
        )
    }

    /// The message that a deployment succeeded.
    pub fn deployment_success_message(
        &self,
        project_name: &str,
        build_number: i64,
        slot: &str,
        app_url: Option<&str>,
    ) -> (r: DiscordMessage)
        ensures
            agent_message(
                r,
                None,
                "🚀 배포 완료 (빌드 #"@ + int_text(build_number as int) + ")"@,
                "프로젝트 **"@ + project_name@ + "**가 성공적으로 배포되었습니다!"@,
                EmbedColor::SUCCESS,
                seq![
                    ("슬롯"@, "`"@ + slot@ + "`"@, Some(true)),
                    ("애플리케이션"@, link_value("앱 열기"@, opt_str(app_url)), Some(false)),
                ],
            ),
    {
        let mut fields: Vec<EmbedField> = Vec::new();
        fields.push(field("슬롯", wrap("`", slot, "`"), true));
        fields.push(field("애플리케이션", link_value_exec("앱 열기", app_url), false));
        assert(fields@.map_values(|f: EmbedField| field_model(f)) =~= seq![
            ("슬롯"@, "`"@ + slot@ + "`"@, Some(true)),
            ("애플리케이션"@, link_value("앱 열기"@, opt_str(app_url)), Some(false)),
        ]);
        agent_message_exec(
            None,
            wrap_num("🚀 배포 완료 (빌드 #", build_number, ")"),
            wrap("프로젝트 **", project_name, "**가 성공적으로 배포되었습니다!"),
            EmbedColor::SUCCESS,
            fields,
        )
    }

    /// The message that a deployment failed, mentioning whom the webhook names.
    pub fn deployment_failure_message(
        &self,
        project_name: &str,
        build_number: i64,
        error_message: Option<&str>,
        mentions: Vec<String>,
    ) -> (r: DiscordMessage)
        ensures
            agent_message(
                r,
                mention_content(texts(mentions@)),
                "🔥 배포 실패 (빌드 #"@ + int_text(build_number as int) + ")"@,
                "프로젝트 **"@ + project_name@ + "**의 배포가 실패했습니다."@,
                EmbedColor::FAILURE,
                seq![("에러"@, error_value(opt_str(error_message)), Some(false))],
            ),
    {
        let mut fields: Vec<EmbedField> = Vec::new();
        fields.push(field("에러", error_value_exec(error_message), false));
        assert(fields@.map_values(|f: EmbedField| field_model(f)) =~= seq![("에러"@, error_value(opt_str(error_message)), Some(false))]);
        agent_message_exec(
            mention_content_exec(&mentions),
            wrap_num("🔥 배포 실패 (빌드 #", build_number, ")"),
            wrap("프로젝트 **", project_name, "**의 배포가 실패했습니다."),
            EmbedColor::FAILURE,
            fields,
        )
    }
}


/// What an event may be notified as.
#[derive(Debug, Clone, Copy, PartialEq, Eq, Structural)]
pub enum NoticeKind {
    BuildStarted,
    BuildSucceeded,
    BuildFailed,
    DeployStarted,
    DeploySucceeded,
    DeployFailed,
}

/// The notice of an event, with its project and build: a build that started
/// building, succeeded or failed; a deployment that is under way, succeeded,
/// or whose status mentions a failure. Other events give none.
pub open spec fn notice_of(e: Event) -> Option<(NoticeKind, i64, i64)> {
    match e {
        Event::BuildStatus { build_id, project_id, status, .. } => match status {
            BuildStatus::Building => Some((NoticeKind::BuildStarted, project_id, build_id)),
            BuildStatus::Success => Some((NoticeKind::BuildSucceeded, project_id, build_id)),
            BuildStatus::Failed => Some((NoticeKind::BuildFailed, project_id, build_id)),
            _ => None,
        },
        Event::Deployment { project_id, build_id, status, .. } => if status@ == "deploying"@ {
            Some((NoticeKind::DeployStarted, project_id, build_id))
        } else if status@ == "Success"@ {
            Some((NoticeKind::DeploySucceeded, project_id, build_id))
        } else if contains_seq(status@, "fail"@) || contains_seq(status@, "Fail"@) {
            Some((NoticeKind::DeployFailed, project_id, build_id))
        } else {
            None
        },
        _ => None,
    }
}

/// The webhook is enabled and asks for notices of this kind.
pub open spec fn wants_notice(c: DiscordWebhookConfig, k: NoticeKind) -> bool {
    c.enabled && match k {
        NoticeKind::BuildStarted => c.notify_on_build_start,
        NoticeKind::BuildSucceeded => c.notify_on_build_success,
        NoticeKind::BuildFailed => c.notify_on_build_failure,
        NoticeKind::DeployStarted => c.notify_on_deploy_start,
        NoticeKind::DeploySucceeded => c.notify_on_deploy_success,
        NoticeKind::DeployFailed => c.notify_on_deploy_failure,
    }
}

/// The address of a build's page.
pub open spec fn build_url_of(base_url: Seq<char>, build_id: i64) -> Seq<char> {
    base_url + "/builds/"@ + int_text(build_id as int)
}

/// How long a build took, in whole seconds (0 when it has not finished or
/// its times do not parse; a negative span wraps as an unsigned number).
pub open spec fn build_duration(b: Build) -> u64 {
    match b.finished_at {
        Some(f) => match rfc3339_elapsed_seconds(b.started_at@, f@) {
            Some(d) => d as u64,
            None => 0,
        },
        None => 0,
    }
}

/// Decides the Discord notices of events.
pub struct DiscordNotifier;

impl DiscordNotifier {
    /// The notice of an event (see `notice_of`).
    pub fn notice_of(event: &Event) -> (r: Option<(NoticeKind, i64, i64)>)
        ensures
            r == notice_of(*event),
    {
        match event {
            Event::BuildStatus { build_id, project_id, status, .. } => match status {
                BuildStatus::Building => Some((NoticeKind::BuildStarted, *project_id, *build_id)),
                BuildStatus::Success => Some((NoticeKind::BuildSucceeded, *project_id, *build_id)),
                BuildStatus::Failed => Some((NoticeKind::BuildFailed, *project_id, *build_id)),
                _ => None,
            },
            Event::Deployment { project_id, build_id, status, .. } => {
                if str_eq(status.as_str(), "deploying") {
                    Some((NoticeKind::DeployStarted, *project_id, *build_id))
                } else if str_eq(status.as_str(), "Success") {
                    Some((NoticeKind::DeploySucceeded, *project_id, *build_id))
                } else if contains_str(chars(status.as_str()).as_slice(), "fail") || contains_str(
                    chars(status.as_str()).as_slice(),
                    "Fail",
                ) {
                    Some((NoticeKind::DeployFailed, *project_id, *build_id))
                } else {
                    None
                }
            },
            _ => None,
        }
    }

    /// Whether the webhook wants notices of this kind (see `wants_notice`).
    pub fn wants(config: &DiscordWebhookConfig, kind: NoticeKind) -> (r: bool)
        ensures
            r == wants_notice(*config, kind),
    {
        config.enabled && match kind {
            NoticeKind::BuildStarted => config.notify_on_build_start,
            NoticeKind::BuildSucceeded => config.notify_on_build_success,
            NoticeKind::BuildFailed => config.notify_on_build_failure,
            NoticeKind::DeployStarted => config.notify_on_deploy_start,
            NoticeKind::DeploySucceeded => config.notify_on_deploy_success,
            NoticeKind::DeployFailed => config.notify_on_deploy_failure,
        }
    }

    /// The address of a build's page.
    pub fn build_url(base_url: &str, build_id: i64) -> (r: String)
        ensures
            r@ == build_url_of(base_url@, build_id),
    {
        let mut v = chars(base_url);
        append_str(&mut v, "/builds/");
        append_chars(&mut v, i64_text(build_id).as_slice());
        from_chars(v.as_slice())
    }

    /// How long a build took (see `build_duration`).
    pub fn duration_seconds(build: &Build) -> (r: u64)
        ensures
            r == build_duration(*build),
    {
        match &build.finished_at {
            Some(f) => match elapsed_seconds(build.started_at.as_str(), f.as_str()) {
                Some(d) => d as u64,
                None => 0,
            },
            None => 0,
        }
    }

    /// The message of a notice the webhook wants: for builds, the project's
    /// name and branch with the build; for deployments, the name, slot and
    /// address the event gives. A deployment under way sends nothing.
    pub fn message_for(
        kind: NoticeKind,
        event: &Event,
        project: &Project,
        build: &Build,
        config: &DiscordWebhookConfig,
        base_url: &str,
    ) -> (r: Option<DiscordMessage>)
        requires
            kind == NoticeKind::BuildStarted ==> hash_cut_ok(build.commit_hash@),
        ensures
            kind == NoticeKind::DeployStarted ==> r is None,
            (kind == NoticeKind::DeploySucceeded || kind == NoticeKind::DeployFailed) && !(*event is Deployment)
                ==> r is None,
            kind == NoticeKind::BuildStarted ==> (r matches Some(m) && agent_message(
                m,
                None,
                "🔨 빌드 #"@ + int_text(build.build_number as int) + " 시작"@,
                "프로젝트 **"@ + project.name@ + "**의 빌드가 시작되었습니다."@,
                EmbedColor::INFO,
                seq![
                    ("브랜치"@, "`"@ + project.branch@ + "`"@, Some(true)),
                    ("커밋"@, "`"@ + short_hash(build.commit_hash@, 7) + "`"@, Some(true)),
                    ("작성자"@, match build.author { Some(a) => a@, None => "Unknown"@ }, Some(true)),
                ],
            )),
            kind == NoticeKind::BuildSucceeded ==> (r matches Some(m) && agent_message(
                m,
                None,
                "✅ 빌드 #"@ + int_text(build.build_number as int) + " 성공"@,
                "프로젝트 **"@ + project.name@ + "**의 빌드가 성공했습니다!"@,
                EmbedColor::SUCCESS,
                seq![
                    ("브랜치"@, "`"@ + project.branch@ + "`"@, Some(true)),
                    ("빌드 시간"@, nat_text(build_duration(*build) as nat) + "초"@, Some(true)),
                    ("링크"@, link_value("빌드 로그 보기"@, Some(build_url_of(base_url@, build.id))), Some(false)),
                ],
            )),
            kind == NoticeKind::BuildFailed ==> (r matches Some(m) && agent_message(
                m,
                mention_content(mentions_of(*config, true)),
                "❌ 빌드 #"@ + int_text(build.build_number as int) + " 실패"@,
                "프로젝트 **"@ + project.name@ + "**의 빌드가 실패했습니다."@,
                EmbedColor::FAILURE,
                seq![
                    ("브랜치"@, "`"@ + project.branch@ + "`"@, Some(true)),
                    ("에러"@, error_value(Some("빌드 실패 - 로그를 확인하세요"@)), Some(false)),
                    ("링크"@, link_value("빌드 로그 보기"@, Some(build_url_of(base_url@, build.id))), Some(false)),
                ],
            )),
            kind == NoticeKind::DeploySucceeded ==> (event matches Event::Deployment { project_name, slot, url, .. }
                ==> r matches Some(m) && agent_message(
                m,
                None,
                "🚀 배포 완료 (빌드 #"@ + int_text(build.build_number as int) + ")"@,
                "프로젝트 **"@ + project_name@ + "**가 성공적으로 배포되었습니다!"@,
                EmbedColor::SUCCESS,
                seq![
                    ("슬롯"@, "`"@ + slot_text(*slot) + "`"@, Some(true)),
                    ("애플리케이션"@, link_value("앱 열기"@, Some(url@)), Some(false)),
                ],
            )),
            kind == NoticeKind::DeployFailed ==> (event matches Event::Deployment { project_name, .. }
                ==> r matches Some(m) && agent_message(
                m,
                mention_content(mentions_of(*config, true)),
                "🔥 배포 실패 (빌드 #"@ + int_text(build.build_number as int) + ")"@,
                "프로젝트 **"@ + project_name@ + "**의 배포가 실패했습니다."@,
                EmbedColor::FAILURE,
                seq![("에러"@, error_value(Some("배포 실패 - 로그를 확인하세요"@)), Some(false))],
            )),
    {
        let client = DiscordClient;
        match kind {
            NoticeKind::BuildStarted => {
                let author = match &build.author {
                    Some(a) => Some(a.as_str()),
                    None => None,
                };
                assert(match author {
                    Some(a) => a@,
                    None => "Unknown"@,
                } == match build.author {
                    Some(a) => a@,
                    None => "Unknown"@,
                });
                let m = client.build_started_message(
                    project.name.as_str(),
                    build.build_number,
                    project.branch.as_str(),
                    build.commit_hash.as_str(),
                    author,
                );
                assert(seq![
                    ("브랜치"@, "`"@ + project.branch@ + "`"@, Some(true)),
                    ("커밋"@, "`"@ + short_hash(build.commit_hash@, 7) + "`"@, Some(true)),
                    ("작성자"@, match author { Some(a) => a@, None => "Unknown"@ }, Some(true)),
                ] =~= seq![
                    ("브랜치"@, "`"@ + project.branch@ + "`"@, Some(true)),
                    ("커밋"@, "`"@ + short_hash(build.commit_hash@, 7) + "`"@, Some(true)),
                    ("작성자"@, match build.author { Some(a) => a@, None => "Unknown"@ }, Some(true)),
                ]);
                Some(m)
            },
            NoticeKind::BuildSucceeded => {
                let url = Self::build_url(base_url, build.id);
                Some(
                    client.build_success_message(
                        project.name.as_str(),
                        build.build_number,
                        project.branch.as_str(),
                        Self::duration_seconds(build),
                        Some(url.as_str()),
                    ),
                )
            },
            NoticeKind::BuildFailed => {
                let url = Self::build_url(base_url, build.id);
                Some(
                    client.build_failure_message(
                        project.name.as_str(),
                        build.build_number,
                        project.branch.as_str(),
                        Some("빌드 실패 - 로그를 확인하세요"),
                        Some(url.as_str()),
                        config.get_mentions(true),
                    ),
                )
            },
            NoticeKind::DeployStarted => None,
            NoticeKind::DeploySucceeded => match event {
                Event::Deployment { project_name, slot, url, .. } => {
                    let slot_label = slot.label();
                    Some(
                        client.deployment_success_message(
                            project_name.as_str(),
                            build.build_number,
                            slot_label.as_str(),
                            Some(url.as_str()),
                        ),
                    )
                },
                _ => None,
            },
            NoticeKind::DeployFailed => match event {
                Event::Deployment { project_name, .. } => Some(
                    client.deployment_failure_message(
                        project_name.as_str(),
                        build.build_number,
                        Some("배포 실패 - 로그를 확인하세요"),
                        config.get_mentions(true),
                    ),
                ),
                _ => None,
            },
        }
    }
}

} // verus!
