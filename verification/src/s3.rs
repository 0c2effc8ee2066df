//! S3 destinations: credentials from rclone-style INI files or the
//! environment, and `s3://bucket/prefix/` output URIs.

use vstd::prelude::*;
use crate::error::CopernicusError;
use crate::text::{
    find_char, starts_with_exec, starts_with_seq,
    chars_of, find_char_exec, push_all, split_chars, split_once_spec, split_spec, string_of,
    string_of_range, sub_vec, trim_end_in, trim_end_in_exec, trim_in_exec, trim_start_in_exec, trim_spec, trim_start_in, CharClass,
    lemma_find_char,
};

verus! {

/// S3 connection parameters resolved from a config file or the environment.
#[derive(Debug, Clone)]
pub struct S3Config {
    pub access_key_id: String,
    pub secret_access_key: String,
    pub region: String,
    pub endpoint: String,
}

/// A section of an INI file as plain values: its name and its
/// `key = value` entries in file order.
pub type SectionView = (Seq<char>, Seq<(Seq<char>, Seq<char>)>);

impl View for S3Config {
    type V = (Seq<char>, Seq<char>, Seq<char>, Seq<char>);

    /// Access key, secret key, region and endpoint.
    open spec fn view(&self) -> Self::V {
        (self.access_key_id@, self.secret_access_key@, self.region@, self.endpoint@)
    }
}

/// One `[section]` of an INI file with its `key = value` entries.
#[derive(Debug, Clone)]
pub struct IniSection {
    pub name: String,
    pub entries: Vec<(String, String)>,
}

/// The plain values of a list of entries.
pub open spec fn entries_view(entries: Seq<(String, String)>) -> Seq<(Seq<char>, Seq<char>)> {
    entries.map_values(|e: (String, String)| (e.0@, e.1@))
}

impl View for IniSection {
    type V = SectionView;

    open spec fn view(&self) -> SectionView {
        (self.name@, entries_view(self.entries@))
    }
}

/// The plain values of a list of sections.
pub open spec fn sections_view(sections: Seq<IniSection>) -> Seq<SectionView> {
    sections.map_values(|s: IniSection| s@)
}

/// The plain value of an optional section.
pub open spec fn opt_section_view(s: Option<IniSection>) -> Option<SectionView> {
    match s {
        Some(sec) => Some(sec@),
        None => None,
    }
}

/// The value of the first entry whose key is `key`.
pub open spec fn entry_value(entries: Seq<(Seq<char>, Seq<char>)>, key: Seq<char>) -> Option<Seq<char>>
    decreases entries.len(),
{
    if entries.len() == 0 {
        None
    } else if entries[0].0 == key {
        Some(entries[0].1)
    } else {
        entry_value(entries.drop_first(), key)
    }
}

/// The name a `[name]` header line declares: the line without its leading
/// `[`s and trailing `]`s, trimmed.
pub open spec fn header_name(line: Seq<char>) -> Seq<char> {
    trim_spec(trim_end_in(trim_start_in(line, CharClass::Exactly('[')), CharClass::Exactly(']')))
}

/// The sections closed so far, with the open one (if any) closed too.
pub open spec fn close_section(done: Seq<SectionView>, cur: Option<SectionView>) -> Seq<SectionView> {
    match cur {
        Some(s) => done.push(s),
        None => done,
    }
}

/// The parser state after one more raw line: blank lines and `#`/`;`
/// comments are skipped; `[name]` opens a new section (closing the open
/// one); `key = value` adds an entry to the open section; other lines, and
/// entries before the first header, are ignored.
pub open spec fn ini_step(
    done: Seq<SectionView>,
    cur: Option<SectionView>,
    raw: Seq<char>,
) -> (Seq<SectionView>, Option<SectionView>) {
    let line = trim_spec(raw);
    if line.len() == 0 || line[0] == '#' || line[0] == ';' {
        (done, cur)
    } else if line[0] == '[' {
        (close_section(done, cur), Some((header_name(line), Seq::empty())))
    } else {
        match (cur, split_once_spec(line, '=')) {
            (Some(sec), Some(kv)) => (
                done,
                Some((sec.0, sec.1.push((trim_spec(kv.0), trim_spec(kv.1))))),
            ),
            _ => (done, cur),
        }
    }
}

/// The parser state after the given lines.
pub open spec fn ini_state(lines: Seq<Seq<char>>) -> (Seq<SectionView>, Option<SectionView>)
    decreases lines.len(),
{
    if lines.len() == 0 {
        (Seq::empty(), None)
    } else {
        let st = ini_state(lines.drop_last());
        ini_step(st.0, st.1, lines.last())
    }
}

/// The sections of an INI text, lines taken between `\n`s. (Splitting at
/// `\n` gives the same trimmed lines as `str::lines`: a `\r` before the `\n`
/// and a final empty line both vanish in trimming.)
pub open spec fn ini_sections_spec(content: Seq<char>) -> Seq<SectionView> {
    let st = ini_state(split_spec(content, '\n'));
    close_section(st.0, st.1)
}

impl IniSection {
    /// The value of the first entry with key `key`.
    pub fn get(&self, key: &str) -> (r: Option<&str>)
        ensures
            match r {
                Some(v) => entry_value(entries_view(self.entries@), key@) == Some(v@),
                None => entry_value(entries_view(self.entries@), key@) is None,
            },
    {
        let k = key.to_owned();
        let ghost es = entries_view(self.entries@);
        let mut i: usize = 0;
        assert(es.skip(0) == es);
        while i < self.entries.len()
            invariant
                i <= self.entries@.len(),
                k@ == key@,
                es == entries_view(self.entries@),
                entry_value(es, key@) == entry_value(es.skip(i as int), key@),
            decreases self.entries@.len() - i,
        {
            assert(es.skip(i as int)[0] == es[i as int]);
            assert(es.skip(i as int).drop_first() == es.skip(i + 1));
            if self.entries[i].0 == k {
                return Some(self.entries[i].1.as_str());
            }
            i += 1;
        }
        assert(es.skip(i as int).len() == 0);
        None
    }
}

/// Parse an rclone-style INI file into a list of named sections.
/// Lines before the first `[section]` header are ignored.
pub fn parse_ini_sections(content: &str) -> (r: Vec<IniSection>)
    ensures
        sections_view(r@) == ini_sections_spec(content@),
{
    let cs = chars_of(content);
    let lines = split_chars(&cs, '\n');
    let ghost ls = split_spec(content@, '\n');
    let mut sections: Vec<IniSection> = Vec::new();
    let mut current: Option<IniSection> = None;
    let mut i: usize = 0;
    while i < lines.len()
        invariant
            i <= lines@.len(),
            ls == split_spec(content@, '\n'),
            lines@.len() == ls.len(),
            forall|k: int| 0 <= k < lines@.len() ==> #[trigger] lines@[k]@ == ls[k],
            (sections_view(sections@), opt_section_view(current)) == ini_state(ls.take(i as int)),
        decreases lines@.len() - i,
    {
        proof {
            assert(ls.take(i + 1).drop_last() == ls.take(i as int));
            assert(ls.take(i + 1).last() == ls[i as int]);
        }
        let line = trim_in_exec(&lines[i], CharClass::Whitespace);
        if line.len() == 0 || line[0] == '#' || line[0] == ';' {
        } else if line[0] == '[' {
            match current {
                Some(sec) => {
                    sections.push(sec);
                    assert(sections_view(sections@) == close_section(
                        sections_view(sections@.drop_last()),
                        Some(sec@),
                    ));
                },
                None => {},
            }
            let inner = trim_after_start(&line);
            let name = trim_in_exec(&inner, CharClass::Whitespace);
            let new_sec = IniSection { name: string_of(&name), entries: Vec::new() };
            assert(entries_view(new_sec.entries@) == Seq::<(Seq<char>, Seq<char>)>::empty());
            current = Some(new_sec);
        } else {
            current = match current {
                Some(mut sec) => {
                    match find_char_exec(&line, '=') {
                        Some(at) => {
                            proof {
                                lemma_find_char(line@, '=');
                            }
                            let key_part = sub_vec(&line, 0, at);
                            let value_part = sub_vec(&line, at + 1, line.len());
                            let key = trim_in_exec(&key_part, CharClass::Whitespace);
                            let value = trim_in_exec(&value_part, CharClass::Whitespace);
                            let ghost before = sec.entries@;
                            sec.entries.push((string_of(&key), string_of(&value)));
                            assert(entries_view(sec.entries@) == entries_view(before).push(
                                (key@, value@),
                            ));
                            Some(sec)
                        },
                        None => Some(sec),
                    }
                },
                None => None,
            };
        }
        i += 1;
    }
    assert(ls.take(lines@.len() as int) == ls);
    match current {
        Some(sec) => {
            sections.push(sec);
            assert(sections_view(sections@) == sections_view(sections@.drop_last()).push(sec@));
        },
        None => {},
    }
    sections
}

/// `line` without leading `[`s, then without trailing `]`s.
fn trim_after_start(line: &Vec<char>) -> (r: Vec<char>)
    ensures
        r@ == trim_end_in(trim_start_in(line@, CharClass::Exactly('[')), CharClass::Exactly(']')),
{
    let a = trim_start_in_exec(line, CharClass::Exactly('['));
    trim_end_in_exec(&a, CharClass::Exactly(']'))
}

/// The first section named `bucket`.
pub open spec fn find_section(secs: Seq<SectionView>, bucket: Seq<char>) -> Option<SectionView>
    decreases secs.len(),
{
    if secs.len() == 0 {
        None
    } else if secs[0].0 == bucket {
        Some(secs[0])
    } else {
        find_section(secs.drop_first(), bucket)
    }
}

/// The message for a key missing from the section of a config file.
pub open spec fn missing_key_message(key: Seq<char>, section: Seq<char>, source: Seq<char>) -> Seq<char> {
    "missing '"@ + key + "' in ["@ + section + "] of "@ + source
}

/// The credentials a section holds, or the message naming the first of
/// `access_key_id`, `secret_access_key`, `region`, `endpoint` it lacks.
pub open spec fn section_config(sec: SectionView, source: Seq<char>) -> Result<
    (Seq<char>, Seq<char>, Seq<char>, Seq<char>),
    Seq<char>,
> {
    match (
        entry_value(sec.1, "access_key_id"@),
        entry_value(sec.1, "secret_access_key"@),
        entry_value(sec.1, "region"@),
        entry_value(sec.1, "endpoint"@),
    ) {
        (None, _, _, _) => Err(missing_key_message("access_key_id"@, sec.0, source)),
        (Some(_), None, _, _) => Err(missing_key_message("secret_access_key"@, sec.0, source)),
        (Some(_), Some(_), None, _) => Err(missing_key_message("region"@, sec.0, source)),
        (Some(_), Some(_), Some(_), None) => Err(missing_key_message("endpoint"@, sec.0, source)),
        (Some(ak), Some(sk), Some(rg), Some(ep)) => Ok((ak, sk, rg, ep)),
    }
}

/// What an INI text yields for `bucket`: nothing when no section has that
/// name, else the credentials of the first such section (or the message
/// naming a missing key).
pub open spec fn ini_config_spec(content: Seq<char>, bucket: Seq<char>, source: Seq<char>) -> Result<
    Option<(Seq<char>, Seq<char>, Seq<char>, Seq<char>)>,
    Seq<char>,
> {
    match find_section(ini_sections_spec(content), bucket) {
        None => Ok(None),
        Some(sec) => match section_config(sec, source) {
            Ok(c) => Ok(Some(c)),
            Err(m) => Err(m),
        },
    }
}

/// The error for a key missing from a section.
fn missing_key(key: &str, section: &str, source: &str) -> (e: CopernicusError)
    ensures
        e matches CopernicusError::S3Error(m) && m@ == missing_key_message(key@, section@, source@),
{
    let mut m = String::new();
    push_all(&mut m, "missing '");
    push_all(&mut m, key);
    push_all(&mut m, "' in [");
    push_all(&mut m, section);
    push_all(&mut m, "] of ");
    push_all(&mut m, source);
    CopernicusError::S3Error(m)
}

impl S3Config {
    /// The credentials of the section named `bucket` in the INI text
    /// `content`, read from `source` (named in error messages).
    /// Returns `Ok(None)` when no section has that name, so that the caller
    /// can go on down its chain of credential sources.
    pub fn from_ini_content(content: &str, bucket: &str, source: &str) -> (r: Result<
        Option<S3Config>,
        CopernicusError,
    >)
        ensures
            match (r, ini_config_spec(content@, bucket@, source@)) {
                (Ok(None), Ok(None)) => true,
                (Ok(Some(c)), Ok(Some(v))) => c@ == v,
                (Err(CopernicusError::S3Error(m)), Err(v)) => m@ == v,
                _ => false,
            },
    {
        let sections = parse_ini_sections(content);
        let ghost secs = sections_view(sections@);
        let b = bucket.to_owned();
        let mut i: usize = 0;
        assert(secs.skip(0) == secs);
        while i < sections.len()
            invariant
                i <= sections@.len(),
                b@ == bucket@,
                secs == sections_view(sections@),
                secs == ini_sections_spec(content@),
                find_section(secs, bucket@) == find_section(secs.skip(i as int), bucket@),
            decreases sections@.len() - i,
        {
            assert(secs.skip(i as int)[0] == sections@[i as int]@);
            assert(secs.skip(i as int).drop_first() == secs.skip(i + 1));
            if sections[i].name == b {
                let sec = &sections[i];
                let name = sec.name.as_str();
                assert(find_section(secs, bucket@) == Some(sec@));
                let ak = match sec.get("access_key_id") {
                    Some(v) => v,
                    None => return Err(missing_key("access_key_id", name, source)),
                };
                let sk = match sec.get("secret_access_key") {
                    Some(v) => v,
                    None => return Err(missing_key("secret_access_key", name, source)),
                };
                let rg = match sec.get("region") {
                    Some(v) => v,
                    None => return Err(missing_key("region", name, source)),
                };
                let ep = match sec.get("endpoint") {
                    Some(v) => v,
                    None => return Err(missing_key("endpoint", name, source)),
                };
                return Ok(
                    Some(
                        S3Config {
                            access_key_id: ak.to_owned(),
                            secret_access_key: sk.to_owned(),
                            region: rg.to_owned(),
                            endpoint: ep.to_owned(),
                        },
                    ),
                );
            }
            i += 1;
        }
        assert(secs.skip(i as int).len() == 0);
        Ok(None)
    }

    /// Credentials from four environment values (access key, secret key,
    /// endpoint, region): present only when all four are.
    pub fn from_env_values(
        access_key_id: Option<String>,
        secret_access_key: Option<String>,
        endpoint: Option<String>,
        region: Option<String>,
    ) -> (r: Option<S3Config>)
        ensures
            match (access_key_id, secret_access_key, endpoint, region) {
                (Some(ak), Some(sk), Some(ep), Some(rg)) => r == Some(
                    S3Config {
                        access_key_id: ak,
                        secret_access_key: sk,
                        region: rg,
                        endpoint: ep,
                    },
                ),
                _ => r is None,
            },
    {
        match (access_key_id, secret_access_key, endpoint, region) {
            (Some(ak), Some(sk), Some(ep), Some(rg)) => Some(
                S3Config { access_key_id: ak, secret_access_key: sk, region: rg, endpoint: ep },
            ),
            _ => None,
        }
    }
}

/// Parsed S3 destination from an `s3://bucket/prefix/` URI.
#[derive(Debug, Clone)]
pub struct S3Destination {
    pub bucket: String,
    pub prefix: String,
    pub config: S3Config,
}

/// The object key under which a file named `filename` is stored below
/// `prefix`: the file name alone when the prefix is empty, else the prefix
/// without trailing `/`s, a `/`, and the file name.
pub open spec fn object_key_spec(prefix: Seq<char>, filename: Seq<char>) -> Seq<char> {
    if prefix.len() == 0 {
        filename
    } else {
        trim_end_in(prefix, CharClass::Exactly('/')) + "/"@ + filename
    }
}

impl S3Destination {
    /// The object key an upload of `filename` writes to.
    pub fn object_key(&self, filename: &str) -> (r: String)
        ensures
            r@ == object_key_spec(self.prefix@, filename@),
    {
        if self.prefix.as_str().is_empty() {
            return filename.to_owned();
        }
        let p = chars_of(self.prefix.as_str());
        let trimmed = trim_end_in_exec(&p, CharClass::Exactly('/'));
        let mut r = string_of(&trimmed);
        push_all(&mut r, "/");
        push_all(&mut r, filename);
        r
    }

    /// The `s3://bucket/key` URI of an object of this destination's bucket.
    pub fn object_uri(&self, key: &str) -> (r: String)
        ensures
            r@ == "s3://"@ + self.bucket@ + "/"@ + key@,
    {
        let mut r = String::new();
        push_all(&mut r, "s3://");
        push_all(&mut r, self.bucket.as_str());
        push_all(&mut r, "/");
        push_all(&mut r, key);
        r
    }
}

/// Where to write downloaded products.
#[derive(Debug, Clone)]
pub enum OutputDestination {
    /// A local directory, by its path.
    Local(String),
    S3(S3Destination),
}

/// How an output string is read: `Err` with a message for a malformed S3
/// URI, `Ok(None)` for a local path, `Ok(Some((bucket, prefix)))` for an
/// `s3://bucket/prefix` URI (the prefix is what follows the bucket's `/`).
pub open spec fn output_target_spec(output: Seq<char>) -> Result<
    Option<(Seq<char>, Seq<char>)>,
    Seq<char>,
> {
    if starts_with_seq(output, "s3:"@) && !starts_with_seq(output, "s3://"@) {
        Err("malformed S3 URI '"@ + output + "': expected s3://bucket/prefix/"@)
    } else if starts_with_seq(output, "s3://"@) {
        let rest = output.skip(5);
        let parts = match find_char(rest, '/') {
            Some(i) => (rest.take(i), rest.skip(i + 1)),
            None => (rest, Seq::<char>::empty()),
        };
        if parts.0.len() == 0 {
            Err("S3 URI must include a bucket name: s3://bucket/prefix/"@)
        } else {
            Ok(Some(parts))
        }
    } else {
        Ok(None)
    }
}

/// Reads an output string as a local path or an S3 bucket and prefix
/// (see `output_target_spec`).
pub fn parse_output_target(output: &str) -> (r: Result<Option<(String, String)>, CopernicusError>)
    ensures
        match (r, output_target_spec(output@)) {
            (Ok(None), Ok(None)) => true,
            (Ok(Some(bp)), Ok(Some(v))) => bp.0@ == v.0 && bp.1@ == v.1,
            (Err(CopernicusError::S3Error(m)), Err(v)) => m@ == v,
            _ => false,
        },
{
    let o = chars_of(output);
    let s3_colon = chars_of("s3:");
    let s3_scheme = chars_of("s3://");
    let has_scheme = starts_with_exec(&o, &s3_scheme);
    if starts_with_exec(&o, &s3_colon) && !has_scheme {
        let mut m = String::new();
        push_all(&mut m, "malformed S3 URI '");
        push_all(&mut m, output);
        push_all(&mut m, "': expected s3://bucket/prefix/");
        return Err(CopernicusError::S3Error(m));
    }
    if has_scheme {
        proof {
            reveal_strlit("s3://");
        }
        let rest = sub_vec(&o, 5, o.len());
        assert(rest@ == output@.skip(5));
        let (bucket, prefix) = match find_char_exec(&rest, '/') {
            Some(idx) => {
                proof {
                    lemma_find_char(rest@, '/');
                }
                (string_of_range(&rest, 0, idx), string_of_range(&rest, idx + 1, rest.len()))
            },
            None => (string_of(&rest), String::new()),
        };
        if bucket.as_str().is_empty() {
            let mut m = String::new();
            push_all(&mut m, "S3 URI must include a bucket name: s3://bucket/prefix/");
            return Err(CopernicusError::S3Error(m));
        }
        return Ok(Some((bucket, prefix)));
    }
    Ok(None)
}

/// Parse the output directory string into either a local path or an S3 destination.
///
/// If `output` is an `s3://bucket/prefix/` URI, the credentials for the
/// bucket come from `resolve_config`, which is handed the bucket name (the
/// caller's credential resolution chain); its error, if any, is returned.
/// `resolve_config` is asked for nothing else: a local path, a malformed
/// URI and a URI without a bucket never call it, so it need only accept the
/// bucket that the URI names.
pub fn parse_output_destination<F: FnOnce(String) -> Result<S3Config, CopernicusError>>(
    output: &str,
    resolve_config: F,
) -> (r: Result<OutputDestination, CopernicusError>)
    requires
        output_target_spec(output@) matches Ok(Some(bp)) ==> forall|bucket: String|
            bucket@ == bp.0 ==> #[trigger] resolve_config.requires((bucket,)),
    ensures
        match output_target_spec(output@) {
            Err(m) => r matches Err(CopernicusError::S3Error(e)) && e@ == m,
            Ok(None) => r matches Ok(OutputDestination::Local(p)) && p@ == output@,
            Ok(Some(bp)) => exists|bucket: String, res: Result<S3Config, CopernicusError>|
                #![trigger resolve_config.ensures((bucket,), res)]
                {
                    &&& bucket@ == bp.0
                    &&& resolve_config.ensures((bucket,), res)
                    &&& match (res, r) {
                        (Ok(c), Ok(OutputDestination::S3(d))) => d.bucket@ == bp.0 && d.prefix@ == bp.1
                            && d.config == c,
                        (Err(e1), Err(e2)) => e1 == e2,
                        _ => false,
                    }
                },
        },
{
    match parse_output_target(output)? {
        None => Ok(OutputDestination::Local(output.to_owned())),
        Some((bucket, prefix)) => {
            let name = bucket.clone();
            let res = resolve_config(name);
            match res {
                Ok(config) => Ok(OutputDestination::S3(S3Destination { bucket, prefix, config })),
                Err(e) => Err(e),
            }
        },
    }
}

/// The places S3 credentials are looked for, in order: the config file
/// given on the command line, the default config file, the `S3_*`
/// environment variables, the `AWS_*` ones.
#[derive(Debug, Clone, Copy, PartialEq, Eq, Structural)]
pub enum CredentialSource {
    ExplicitFile,
    DefaultFile,
    S3Env,
    AwsEnv,
}

/// What to do next while resolving credentials: read a source, or stop
/// with the outcome.
#[derive(Debug)]
pub enum ResolveAction {
    Read(CredentialSource),
    Done(Result<S3Config, CopernicusError>),
}

/// The message when no source holds credentials.
pub open spec fn no_credentials_message() -> Seq<char> {
    "no S3 credentials found: provide --s3-config, place a config at ~/.config/copernicus_explorer/s3.conf, or set S3_*/AWS_* environment variables"@
}

/// The source read after `at`, if any.
pub open spec fn next_source(at: CredentialSource) -> Option<CredentialSource> {
    match at {
        CredentialSource::ExplicitFile => Some(CredentialSource::DefaultFile),
        CredentialSource::DefaultFile => Some(CredentialSource::S3Env),
        CredentialSource::S3Env => Some(CredentialSource::AwsEnv),
        CredentialSource::AwsEnv => None,
    }
}

/// The first source read when resolving credentials.
pub fn resolve_start() -> (r: CredentialSource)
    ensures
        r == CredentialSource::ExplicitFile,
{
    CredentialSource::ExplicitFile
}

/// One step of resolving credentials: after reading `at` (an absent source
/// reads as `Ok(None)`), stop at its error or its credentials, else go on to
/// the next source, and after the last, fail with `no_credentials_message`.
pub fn resolve_step(at: CredentialSource, found: Result<Option<S3Config>, CopernicusError>) -> (r:
    ResolveAction)
    ensures
        found is Err ==> r == ResolveAction::Done(Err(found->Err_0)),
        found matches Ok(Some(c)) ==> r == ResolveAction::Done(Ok(c)),
        found matches Ok(None) ==> match next_source(at) {
            Some(n) => r == ResolveAction::Read(n),
            None => r matches ResolveAction::Done(Err(CopernicusError::S3Error(m)))
                && m@ == no_credentials_message(),
        },
{
    match found {
        Err(e) => ResolveAction::Done(Err(e)),
        Ok(Some(c)) => ResolveAction::Done(Ok(c)),
        Ok(None) => match at {
            CredentialSource::ExplicitFile => ResolveAction::Read(CredentialSource::DefaultFile),
            CredentialSource::DefaultFile => ResolveAction::Read(CredentialSource::S3Env),
            CredentialSource::S3Env => ResolveAction::Read(CredentialSource::AwsEnv),
            CredentialSource::AwsEnv => {
                let mut m = String::new();
                push_all(
                    &mut m,
                    "no S3 credentials found: provide --s3-config, place a config at ~/.config/copernicus_explorer/s3.conf, or set S3_*/AWS_* environment variables",
                );
                ResolveAction::Done(Err(CopernicusError::S3Error(m)))
            },
        },
    }
}

} // verus!
