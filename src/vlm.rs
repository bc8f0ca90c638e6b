//! Broadcast and video-on-demand control on an instance. Each operation
//! marshals its arguments here; the engine's answer is then turned into a
//! result by `status_result`, `sentinel_result`, `position_result` or
//! `show_result`.
use vstd::prelude::*;
use vstd::string::StringSliceAdditionalSpecFns;
use vstd::utf8::encode_utf8;

use crate::error::{EmbeddedNul, InternalError};
use crate::handles::Instance;
use crate::native::bool_to_native;
use crate::tools::{c_text, from_cstr, lossy_utf8, nul_free, to_cstr, NativeString};

verus! {

/// The text of the options, none standing for an empty list.
pub open spec fn options_text(options: Option<Vec<String>>) -> Seq<Seq<char>> {
    match options {
        None => Seq::empty(),
        Some(v) => texts(v@),
    }
}

/// Every string of `t` has a nul-free encoding.
pub open spec fn all_nul_free(t: Seq<Seq<char>>) -> bool {
    forall|i: int| 0 <= i < t.len() ==> nul_free(encode_utf8(#[trigger] t[i]))
}

/// `m` holds the encodings of `t`, in order.
pub open spec fn encodes_all(m: Seq<NativeString>, t: Seq<Seq<char>>) -> bool {
    &&& m.len() == t.len()
    &&& forall|i: int| 0 <= i < t.len() ==> (#[trigger] m[i])@ == encode_utf8(t[i])
}

/// The text of each string, in order.
pub open spec fn texts(v: Seq<String>) -> Seq<Seq<char>> {
    v.map_values(|s: String| s@)
}

/// Marshals each string, in order; fails on the first that holds a nul.
pub fn marshal_strings(v: &Vec<String>) -> (r: Result<Vec<NativeString>, EmbeddedNul>)
    ensures
        r is Ok <==> all_nul_free(texts(v@)),
        r matches Ok(m) ==> encodes_all(m@, texts(v@)),
{
    let ghost t = texts(v@);
    let mut out: Vec<NativeString> = Vec::new();
    let mut i: usize = 0;
    while i < v.len()
        invariant
            t == texts(v@),
            0 <= i <= v@.len(),
            encodes_all(out@, t.take(i as int)),
            all_nul_free(t.take(i as int)),
        decreases v@.len() - i,
    {
        let text = v[i].as_str();
        assert(text@ == t[i as int]);
        match to_cstr(text) {
            Ok(c) => {
                out.push(c);
                i = i + 1;
                assert(t.take(i as int) =~= t.take(i - 1).push(t[i - 1]));
            },
            Err(e) => {
                assert(!nul_free(encode_utf8(t[i as int])));
                assert(!all_nul_free(texts(v@)));
                return Err(e);
            },
        }
    }
    assert(t.take(i as int) =~= t);
    Ok(out)
}

/// Marshals the options, none standing for an empty list.
fn marshal_options(options: &Option<Vec<String>>) -> (r: Result<Vec<NativeString>, EmbeddedNul>)
    ensures
        r is Ok <==> all_nul_free(options_text(*options)),
        r matches Ok(m) ==> encodes_all(m@, options_text(*options)),
{
    match options {
        None => {
            let out: Vec<NativeString> = Vec::new();
            assert(encodes_all(out@, options_text(*options)));
            Ok(out)
        },
        Some(v) => marshal_strings(v),
    }
}

/// The arguments of the engine's "add broadcast" call. An empty option
/// list is passed as a null array with a count of zero.
pub struct BroadcastRequest {
    pub name: NativeString,
    pub input: NativeString,
    pub output: NativeString,
    pub options: Vec<NativeString>,
    pub option_count: i32,
    pub enabled: i32,
    pub loop_broadcast: i32,
}

/// The arguments of the engine's "add video on demand" call.
pub struct VodRequest {
    pub name: NativeString,
    pub input: NativeString,
    pub mux: NativeString,
    pub options: Vec<NativeString>,
    pub option_count: i32,
    pub enabled: i32,
}

/// The arguments of a query on one running instance of a named media.
pub struct MediaQuery {
    pub name: NativeString,
    pub instance: i32,
}

pub open spec fn flag(b: bool) -> i32 {
    if b {
        1
    } else {
        0
    }
}

pub open spec fn option_count_fits(options: Option<Vec<String>>) -> bool {
    options matches Some(v) ==> v@.len() <= i32::MAX
}

pub trait Vlm {
    /// Adds a broadcast: marshals its name, input, output and options, and
    /// the two flags. Fails exactly where one of those strings holds a nul.
    fn add_broadcast(
        &self,
        name: &str,
        input: &str,
        output: &str,
        options: Option<Vec<String>>,
        enabled: bool,
        loop_broadcast: bool,
    ) -> (r: Result<BroadcastRequest, EmbeddedNul>)
        requires
            option_count_fits(options),
        ensures
            r is Ok <==> nul_free(name.spec_bytes()) && nul_free(input.spec_bytes())
                && nul_free(output.spec_bytes()) && all_nul_free(options_text(options)),
            r matches Ok(q) ==> ({
                &&& q.name@ == name.spec_bytes()
                &&& q.input@ == input.spec_bytes()
                &&& q.output@ == output.spec_bytes()
                &&& encodes_all(q.options@, options_text(options))
                &&& q.option_count == q.options@.len()
                &&& q.enabled == flag(enabled)
                &&& q.loop_broadcast == flag(loop_broadcast)
            }),
    ;

    /// Adds a video-on-demand entry: marshals its name, input, mux and
    /// options, and the flag. Fails exactly where one of those holds a nul.
    fn add_vod(
        &self,
        name: &str,
        input: &str,
        mux: &str,
        options: Option<Vec<String>>,
        enabled: bool,
    ) -> (r: Result<VodRequest, EmbeddedNul>)
        requires
            option_count_fits(options),
        ensures
            r is Ok <==> nul_free(name.spec_bytes()) && nul_free(input.spec_bytes())
                && nul_free(mux.spec_bytes()) && all_nul_free(options_text(options)),
            r matches Ok(q) ==> ({
                &&& q.name@ == name.spec_bytes()
                &&& q.input@ == input.spec_bytes()
                &&& q.mux@ == mux.spec_bytes()
                &&& encodes_all(q.options@, options_text(options))
                &&& q.option_count == q.options@.len()
                &&& q.enabled == flag(enabled)
            }),
    ;

    /// The name for the engine's "play media" call.
    fn play_media(&self, name: &str) -> (r: Result<NativeString, EmbeddedNul>)
        ensures
            r is Ok <==> nul_free(name.spec_bytes()),
            r matches Ok(c) ==> c@ == name.spec_bytes(),
    ;

    /// The name for the engine's "pause media" call.
    fn pause_media(&self, name: &str) -> (r: Result<NativeString, EmbeddedNul>)
        ensures
            r is Ok <==> nul_free(name.spec_bytes()),
            r matches Ok(c) ==> c@ == name.spec_bytes(),
    ;

    /// The name for the engine's "stop media" call.
    fn stop_media(&self, name: &str) -> (r: Result<NativeString, EmbeddedNul>)
        ensures
            r is Ok <==> nul_free(name.spec_bytes()),
            r matches Ok(c) ==> c@ == name.spec_bytes(),
    ;

    /// The arguments of the position query; its answer goes through
    /// `position_result`.
    fn get_media_instance_position(&self, name: &str, instance: i32) -> (r: Result<MediaQuery, EmbeddedNul>)
        ensures
            r is Ok <==> nul_free(name.spec_bytes()),
            r matches Ok(q) ==> q.name@ == name.spec_bytes() && q.instance == instance,
    ;

    /// The arguments of the length query; its answer goes through
    /// `sentinel_result`.
    fn get_media_instance_length(&self, name: &str, instance: i32) -> (r: Result<MediaQuery, EmbeddedNul>)
        ensures
            r is Ok <==> nul_free(name.spec_bytes()),
            r matches Ok(q) ==> q.name@ == name.spec_bytes() && q.instance == instance,
    ;

    /// The arguments of the time query; its answer goes through
    /// `sentinel_result`.
    fn get_media_instance_time(&self, name: &str, instance: i32) -> (r: Result<MediaQuery, EmbeddedNul>)
        ensures
            r is Ok <==> nul_free(name.spec_bytes()),
            r matches Ok(q) ==> q.name@ == name.spec_bytes() && q.instance == instance,
    ;

    /// The arguments of the rate query; its answer goes through
    /// `sentinel_result`.
    fn get_media_instance_rate(&self, name: &str, instance: i32) -> (r: Result<MediaQuery, EmbeddedNul>)
        ensures
            r is Ok <==> nul_free(name.spec_bytes()),
            r matches Ok(q) ==> q.name@ == name.spec_bytes() && q.instance == instance,
    ;

    /// The name for the engine's "show media" call; its answer goes through
    /// `show_result`.
    fn show_media(&self, name: &str) -> (r: Result<NativeString, EmbeddedNul>)
        ensures
            r is Ok <==> nul_free(name.spec_bytes()),
            r matches Ok(c) ==> c@ == name.spec_bytes(),
    ;
}

fn media_query(name: &str, instance: i32) -> (r: Result<MediaQuery, EmbeddedNul>)
    ensures
        r is Ok <==> nul_free(name.spec_bytes()),
        r matches Ok(q) ==> q.name@ == name.spec_bytes() && q.instance == instance,
{
    match to_cstr(name) {
        Ok(c) => Ok(MediaQuery { name: c, instance }),
        Err(e) => Err(e),
    }
}

impl Vlm for Instance {
    fn add_broadcast(
        &self,
        name: &str,
        input: &str,
        output: &str,
        options: Option<Vec<String>>,
        enabled: bool,
        loop_broadcast: bool,
    ) -> (r: Result<BroadcastRequest, EmbeddedNul>) {
        let name = to_cstr(name)?;
        let input = to_cstr(input)?;
        let output = to_cstr(output)?;
        let options = marshal_options(&options)?;
        let option_count = options.len() as i32;
        Ok(BroadcastRequest {
            name,
            input,
            output,
            options,
            option_count,
            enabled: bool_to_native(enabled),
            loop_broadcast: bool_to_native(loop_broadcast),
        })
    }

    fn add_vod(
        &self,
        name: &str,
        input: &str,
        mux: &str,
        options: Option<Vec<String>>,
        enabled: bool,
    ) -> (r: Result<VodRequest, EmbeddedNul>) {
        let name = to_cstr(name)?;
        let input = to_cstr(input)?;
        let mux = to_cstr(mux)?;
        let options = marshal_options(&options)?;
        let option_count = options.len() as i32;
        Ok(VodRequest { name, input, mux, options, option_count, enabled: bool_to_native(enabled) })
    }

    fn play_media(&self, name: &str) -> (r: Result<NativeString, EmbeddedNul>) {
        to_cstr(name)
    }

    fn pause_media(&self, name: &str) -> (r: Result<NativeString, EmbeddedNul>) {
        to_cstr(name)
    }

    fn stop_media(&self, name: &str) -> (r: Result<NativeString, EmbeddedNul>) {
        to_cstr(name)
    }

    fn get_media_instance_position(&self, name: &str, instance: i32) -> (r: Result<MediaQuery, EmbeddedNul>) {
        media_query(name, instance)
    }

    fn get_media_instance_length(&self, name: &str, instance: i32) -> (r: Result<MediaQuery, EmbeddedNul>) {
        media_query(name, instance)
    }

    fn get_media_instance_time(&self, name: &str, instance: i32) -> (r: Result<MediaQuery, EmbeddedNul>) {
        media_query(name, instance)
    }

    fn get_media_instance_rate(&self, name: &str, instance: i32) -> (r: Result<MediaQuery, EmbeddedNul>) {
        media_query(name, instance)
    }

    fn show_media(&self, name: &str) -> (r: Result<NativeString, EmbeddedNul>) {
        to_cstr(name)
    }
}

/// The description the engine's "show media" call returned: a null pointer
/// is failure, any text is decoded as `from_cstr` does.
pub fn show_result(text: Option<&[u8]>) -> (r: Result<String, InternalError>)
    ensures
        r is Err <==> text is None,
        text matches Some(b) ==> r.unwrap()@ == lossy_utf8(c_text(b@)),
{
    match from_cstr(text) {
        Some(s) => Ok(s),
        None => Err(InternalError),
    }
}

} // verus!
