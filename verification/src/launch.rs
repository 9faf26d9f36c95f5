//! Launch-argument assembly.
//!
//! From the locally persisted per-version manifest, the assembler rebuilds
//! the platform-filtered library set, builds the classpath (manifest library
//! order, main client jar last, platform path separator in between), lists
//! the native archives to extract for the current platform, concatenates the
//! manifest's argument template lists, substitutes the fixed placeholder set
//! literally, and splits the result on whitespace into the final argument
//! vector. Reading the manifest file, extracting archives and spawning the
//! process happen outside the library; launching without a resolved manifest
//! is refused here, as `ManifestMissing`.

use vstd::prelude::*;
use vstd::string::StringExecFns;
use crate::manifest::{
    ArgToken, ArtifactRef, LaunchError, LibraryEntry, VersionManifest,
};
use crate::paths::{
    build_library_path, build_natives_dir_path, build_under_root, build_version_jar_path,
    library_path, natives_dir_path, under_root, version_jar_path,
};
use crate::platform::{Platform, is_library_applicable, rules_allow};
use crate::text::{replace_all, replace_all_spec, split_spaces, split_spaces_spec};

verus! {

/// Arguments supplied by the caller at launch time and never persisted.
pub struct LaunchInfo {
    pub player_name: String,
    pub uuid: String,
    pub version: String,
    pub name: String,
    pub demo: bool,
}

/// The classpath separator of a platform.
pub open spec fn sep_str(p: Platform) -> Seq<char> {
    match p {
        Platform::Windows => ";"@,
        Platform::Linux => ":"@,
        Platform::Mac => ":"@,
    }
}

/// The classpath contribution of the library list: for every entry whose
/// rules allow `p` and that has a generic artifact, its absolute path
/// followed by the separator, in manifest order.
pub open spec fn classpath_libs(libs: Seq<LibraryEntry>, p: Platform, root: Seq<char>) -> Seq<char>
    decreases libs.len(),
{
    if libs.len() == 0 {
        Seq::empty()
    } else {
        (if rules_allow(libs.first().rules@, p) {
            match libs.first().artifact {
                Option::Some(a) => under_root(root, library_path(a.path@)) + sep_str(p),
                Option::None => Seq::empty(),
            }
        } else {
            Seq::empty()
        }) + classpath_libs(libs.drop_first(), p, root)
    }
}

/// The whole classpath: the applicable libraries, then the main client jar.
pub open spec fn classpath_spec(
    m: VersionManifest,
    p: Platform,
    root: Seq<char>,
    name: Seq<char>,
) -> Seq<char> {
    classpath_libs(m.libraries@, p, root) + under_root(root, version_jar_path(name))
}

/// The native classifier of an entry for platform `p`, if it declares one.
pub open spec fn native_for(e: LibraryEntry, p: Platform) -> Option<ArtifactRef> {
    match p {
        Platform::Windows => e.natives_windows,
        Platform::Linux => e.natives_linux,
        Platform::Mac => e.natives_mac,
    }
}

/// Looks up the native classifier a library entry declares for the current
/// platform; absence is not an error, just no natives for this entry here.
pub fn native_classifier_for<'a>(e: &'a LibraryEntry, current: Platform) -> (r: Option<
    &'a ArtifactRef,
>)
    ensures
        match r {
            Option::Some(a) => native_for(*e, current) == Option::Some(*a),
            Option::None => native_for(*e, current) is None,
        },
{
    match current {
        Platform::Windows => e.natives_windows.as_ref(),
        Platform::Linux => e.natives_linux.as_ref(),
        Platform::Mac => e.natives_mac.as_ref(),
    }
}

/// The archive paths of every native classifier declared for platform `p`,
/// in manifest order.
pub open spec fn natives_paths(libs: Seq<LibraryEntry>, p: Platform) -> Seq<Seq<char>>
    decreases libs.len(),
{
    if libs.len() == 0 {
        Seq::empty()
    } else {
        (match native_for(libs.first(), p) {
            Option::Some(a) => seq![library_path(a.path@)],
            Option::None => Seq::empty(),
        }) + natives_paths(libs.drop_first(), p)
    }
}

/// The plain-string tokens of a template list, skipping composite tokens.
pub open spec fn text_tokens(toks: Seq<ArgToken>) -> Seq<Seq<char>>
    decreases toks.len(),
{
    if toks.len() == 0 {
        Seq::empty()
    } else {
        (match toks.first() {
            ArgToken::Text(s) => seq![s@],
            ArgToken::Composite => Seq::empty(),
        }) + text_tokens(toks.drop_first())
    }
}

/// The tokens joined with one trailing space each.
pub open spec fn spaced(ts: Seq<Seq<char>>) -> Seq<char>
    decreases ts.len(),
{
    if ts.len() == 0 {
        Seq::empty()
    } else {
        ts.first() + " "@ + spaced(ts.drop_first())
    }
}

/// The raw argument template of a manifest: its jvm tokens, the main class,
/// then its game tokens, each followed by a space. A manifest without
/// template lists yields the empty template.
pub open spec fn argument_template(m: VersionManifest) -> Seq<char> {
    match m.arguments {
        Option::Some(lists) => spaced(text_tokens(lists.jvm@)) + m.main_class@ + " "@ + spaced(
            text_tokens(lists.game@),
        ),
        Option::None => Seq::empty(),
    }
}

/// The template after literal substitution of the fixed placeholder set, in
/// a fixed order, each placeholder replaced everywhere it occurs.
pub open spec fn substituted(
    t: Seq<char>,
    m: VersionManifest,
    info: LaunchInfo,
    root: Seq<char>,
    p: Platform,
) -> Seq<char> {
    let name = info.name@;
    let t1 = replace_all_spec(t, "${natives_directory}"@, under_root(root, natives_dir_path(name)));
    let t2 = replace_all_spec(t1, "${launcher_name}"@, "command-minecraft-launcher"@);
    let t3 = replace_all_spec(t2, "${launcher_version}"@, "0.0.0"@);
    let t4 = replace_all_spec(t3, "${classpath}"@, classpath_spec(m, p, root, name));
    let t5 = replace_all_spec(t4, "${auth_player_name}"@, info.player_name@);
    let t6 = replace_all_spec(t5, "${version_name}"@, m.id@);
    let t7 = replace_all_spec(t6, "${game_directory}"@, root);
    let t8 = replace_all_spec(t7, "${assets_root}"@, under_root(root, "assets"@));
    let t9 = replace_all_spec(t8, "${assets_index_name}"@, m.asset_index_id@);
    let t10 = replace_all_spec(t9, "${auth_uuid}"@, info.uuid@);
    let t11 = replace_all_spec(t10, "${auth_access_token}"@, info.uuid@);
    let t12 = replace_all_spec(t11, "${user_type}"@, "msa"@);
    replace_all_spec(t12, "${version_type}"@, m.type_label@)
}

/// The final argument vector of a launch: the substituted template split on
/// whitespace.
pub open spec fn assembled_args(
    m: VersionManifest,
    info: LaunchInfo,
    root: Seq<char>,
    p: Platform,
) -> Seq<Seq<char>> {
    split_spaces_spec(substituted(argument_template(m), m, info, root, p))
}

/// Builds launch argument vectors from resolved manifests.
pub struct Launcher {}

impl Launcher {
    pub fn new() -> Launcher {
        Launcher {  }
    }

    /// Builds the classpath for the current platform: every applicable
    /// library in manifest order, the main client jar last, joined by the
    /// platform separator.
    pub fn classpath(
        &self,
        m: &VersionManifest,
        name: &str,
        current: Platform,
        game_root: &str,
    ) -> (r: String)
        ensures
            r@ == classpath_spec(*m, current, game_root@, name@),
    {
        let mut cp = String::new();
        let mut i: usize = 0;
        proof {
            assert(m.libraries@.skip(0) =~= m.libraries@);
        }
        while i < m.libraries.len()
            invariant
                i <= m.libraries@.len(),
                classpath_libs(m.libraries@, current, game_root@) == cp@ + classpath_libs(
                    m.libraries@.skip(i as int),
                    current,
                    game_root@,
                ),
            decreases m.libraries@.len() - i,
        {
            proof {
                assert(m.libraries@.skip(i as int).drop_first() =~= m.libraries@.skip(i + 1));
                assert(m.libraries@.skip(i as int).first() == m.libraries@[i as int]);
            }
            let ghost cp0 = cp@;
            if is_library_applicable(&m.libraries[i].rules, current) {
                match &m.libraries[i].artifact {
                    Option::Some(a) => {
                        let rel = build_library_path(a.path.as_str());
                        let abs = build_under_root(game_root, rel.as_str());
                        cp.append(abs.as_str());
                        match current {
                            Platform::Windows => cp.append(";"),
                            Platform::Linux => cp.append(":"),
                            Platform::Mac => cp.append(":"),
                        }
                        proof {
                            let piece = under_root(game_root@, library_path(a.path@)) + sep_str(
                                current,
                            );
                            assert(cp@ =~= cp0 + piece);
                            assert((cp0 + piece) + classpath_libs(
                                m.libraries@.skip(i + 1),
                                current,
                                game_root@,
                            ) =~= cp0 + (piece + classpath_libs(
                                m.libraries@.skip(i + 1),
                                current,
                                game_root@,
                            )));
                        }
                    },
                    Option::None => {},
                }
            }
            i = i + 1;
        }
        proof {
            assert(classpath_libs(m.libraries@.skip(i as int), current, game_root@)
                =~= Seq::<char>::empty());
            assert(cp@ + Seq::<char>::empty() =~= cp@);
        }
        let jar = build_under_root(game_root, build_version_jar_path(name).as_str());
        cp.append(jar.as_str());
        cp
    }

    /// Lists the native archives to extract for the current platform, in
    /// manifest order, as paths below the library store.
    pub fn natives_to_extract(&self, m: &VersionManifest, current: Platform) -> (r: Vec<String>)
        ensures
            r@.map_values(|s: String| s@) == natives_paths(m.libraries@, current),
    {
        let mut r: Vec<String> = Vec::new();
        let mut i: usize = 0;
        proof {
            assert(m.libraries@.skip(0) =~= m.libraries@);
        }
        while i < m.libraries.len()
            invariant
                i <= m.libraries@.len(),
                natives_paths(m.libraries@, current) == r@.map_values(|s: String| s@)
                    + natives_paths(m.libraries@.skip(i as int), current),
            decreases m.libraries@.len() - i,
        {
            proof {
                assert(m.libraries@.skip(i as int).drop_first() =~= m.libraries@.skip(i + 1));
                assert(m.libraries@.skip(i as int).first() == m.libraries@[i as int]);
            }
            let ghost r0 = r@;
            match native_classifier_for(&m.libraries[i], current) {
                Option::Some(a) => {
                    let rel = build_library_path(a.path.as_str());
                    r.push(rel);
                    proof {
                        let f = |s: String| s@;
                        assert(r@.map_values(f) =~= r0.map_values(f) + seq![library_path(
                            a.path@,
                        )]);
                        assert((r0.map_values(f) + seq![library_path(a.path@)]) + natives_paths(
                            m.libraries@.skip(i + 1),
                            current,
                        ) =~= r0.map_values(f) + (seq![library_path(a.path@)] + natives_paths(
                            m.libraries@.skip(i + 1),
                            current,
                        )));
                    }
                },
                Option::None => {},
            }
            i = i + 1;
        }
        proof {
            assert(natives_paths(m.libraries@.skip(i as int), current) =~= Seq::<Seq<char>>::empty());
            assert(r@.map_values(|s: String| s@) + Seq::<Seq<char>>::empty() =~= r@.map_values(
                |s: String| s@,
            ));
        }
        r
    }

    /// Appends every plain-string token of `toks`, each followed by one
    /// space.
    fn append_spaced(&self, out: &mut String, toks: &Vec<ArgToken>)
        ensures
            final(out)@ == old(out)@ + spaced(text_tokens(toks@)),
    {
        let mut i: usize = 0;
        proof {
            assert(toks@.skip(0) =~= toks@);
            assert(old(out)@ + Seq::<char>::empty() =~= old(out)@);
        }
        while i < toks.len()
            invariant
                i <= toks@.len(),
                old(out)@ + spaced(text_tokens(toks@)) == out@ + spaced(
                    text_tokens(toks@.skip(i as int)),
                ),
            decreases toks@.len() - i,
        {
            proof {
                assert(toks@.skip(i as int).drop_first() =~= toks@.skip(i + 1));
                assert(toks@.skip(i as int).first() == toks@[i as int]);
            }
            let ghost out0 = out@;
            match &toks[i] {
                ArgToken::Text(s) => {
                    out.append(s.as_str());
                    out.append(" ");
                    proof {
                        let tt = text_tokens(toks@.skip(i as int));
                        assert(tt.first() == s@);
                        assert(tt.drop_first() =~= text_tokens(toks@.skip(i + 1)));
                        assert(spaced(tt) == s@ + " "@ + spaced(text_tokens(toks@.skip(i + 1))));
                        assert((out0 + (s@ + " "@)) + spaced(text_tokens(toks@.skip(i + 1)))
                            =~= out0 + ((s@ + " "@) + spaced(text_tokens(toks@.skip(i + 1)))));
                        assert(out@ =~= out0 + (s@ + " "@));
                        assert(s@ + " "@ + spaced(text_tokens(toks@.skip(i + 1))) =~= (s@ + " "@)
                            + spaced(text_tokens(toks@.skip(i + 1))));
                    }
                },
                ArgToken::Composite => {
                    proof {
                        assert(text_tokens(toks@.skip(i as int)) =~= text_tokens(
                            toks@.skip(i + 1),
                        ));
                    }
                },
            }
            i = i + 1;
        }
        proof {
            assert(spaced(text_tokens(toks@.skip(i as int))) =~= Seq::<char>::empty());
            assert(out@ + Seq::<char>::empty() =~= out@);
        }
    }

    /// Builds the raw argument template of a manifest: jvm tokens, the main
    /// class, then game tokens, each followed by one space.
    pub fn build_argument_template(&self, m: &VersionManifest) -> (r: String)
        ensures
            r@ == argument_template(*m),
    {
        let mut out = String::new();
        match &m.arguments {
            Option::Some(lists) => {
                self.append_spaced(&mut out, &lists.jvm);
                out.append(m.main_class.as_str());
                out.append(" ");
                self.append_spaced(&mut out, &lists.game);
                proof {
                    assert(out@ =~= spaced(text_tokens(lists.jvm@)) + m.main_class@ + " "@
                        + spaced(text_tokens(lists.game@)));
                }
            },
            Option::None => {},
        }
        out
    }

    /// Substitutes the fixed placeholder set into `template`, literally and
    /// in a fixed order.
    pub fn substitute(
        &self,
        template: &str,
        m: &VersionManifest,
        info: &LaunchInfo,
        game_root: &str,
        current: Platform,
    ) -> (r: String)
        ensures
            r@ == substituted(template@, *m, *info, game_root@, current),
    {
        proof {
            reveal_strlit("${natives_directory}");
            reveal_strlit("${launcher_name}");
            reveal_strlit("${launcher_version}");
            reveal_strlit("${classpath}");
            reveal_strlit("${auth_player_name}");
            reveal_strlit("${version_name}");
            reveal_strlit("${game_directory}");
            reveal_strlit("${assets_root}");
            reveal_strlit("${assets_index_name}");
            reveal_strlit("${auth_uuid}");
            reveal_strlit("${auth_access_token}");
            reveal_strlit("${user_type}");
            reveal_strlit("${version_type}");
        }
        let natives_dir = build_under_root(game_root, build_natives_dir_path(info.name.as_str()).as_str());
        let cp = self.classpath(m, info.name.as_str(), current, game_root);
        let assets_root = build_under_root(game_root, "assets");
        let t1 = replace_all(template, "${natives_directory}", natives_dir.as_str());
        let t2 = replace_all(t1.as_str(), "${launcher_name}", "command-minecraft-launcher");
        let t3 = replace_all(t2.as_str(), "${launcher_version}", "0.0.0");
        let t4 = replace_all(t3.as_str(), "${classpath}", cp.as_str());
        let t5 = replace_all(t4.as_str(), "${auth_player_name}", info.player_name.as_str());
        let t6 = replace_all(t5.as_str(), "${version_name}", m.id.as_str());
        let t7 = replace_all(t6.as_str(), "${game_directory}", game_root);
        let t8 = replace_all(t7.as_str(), "${assets_root}", assets_root.as_str());
        let t9 = replace_all(t8.as_str(), "${assets_index_name}", m.asset_index_id.as_str());
        let t10 = replace_all(t9.as_str(), "${auth_uuid}", info.uuid.as_str());
        let t11 = replace_all(t10.as_str(), "${auth_access_token}", info.uuid.as_str());
        let t12 = replace_all(t11.as_str(), "${user_type}", "msa");
        let t13 = replace_all(t12.as_str(), "${version_type}", m.type_label.as_str());
        t13
    }

    /// Assembles the final argument vector for a launch. A launch attempted
    /// before the version was resolved and fetched has no persisted manifest
    /// and is refused as `ManifestMissing`; nothing else fails here.
    pub fn assemble(
        &self,
        manifest: Option<&VersionManifest>,
        info: &LaunchInfo,
        game_root: &str,
        current: Platform,
    ) -> (r: Result<Vec<String>, LaunchError>)
        ensures
            match r {
                Result::Ok(args) => match manifest {
                    Option::Some(m) => args@.map_values(|s: String| s@) == assembled_args(
                        *m,
                        *info,
                        game_root@,
                        current,
                    ),
                    Option::None => false,
                },
                Result::Err(e) => manifest is None && e == LaunchError::ManifestMissing,
            },
    {
        match manifest {
            Option::Some(m) => {
                let template = self.build_argument_template(m);
                let final_line = self.substitute(template.as_str(), m, info, game_root, current);
                Result::Ok(split_spaces(final_line.as_str()))
            },
            Option::None => Result::Err(LaunchError::ManifestMissing),
        }
    }
}

} // verus!
