//! The style generator: renders the package stylesheet from the course's
//! display settings and checks stylesheets against the fixed layout rules
//! that the output validator also enforces.
use vstd::prelude::*;
use vstd::string::StringExecFns;
use crate::model::GenerateScormRequest;
use crate::text::{
    append_chars, append_str, chars_eq, chars_to_string, contains_chars, contains_seq, lacks_char,
    lemma_contains_concat, lemma_lacks_char_concat, lemma_lacks_char_not_contains,
    lemma_occurs_self, occurs_at, string_to_chars,
};

verus! {

/// The body rules up to the font-size value.
pub open spec fn css_p1() -> Seq<char> {
    "body { margin: 0; padding: 0; height: 100vh; display: flex; flex-direction: column; font-family: Arial, Helvetica, sans-serif; font-size: "@
}

/// The close of the body rules.
pub open spec fn css_p2a() -> Seq<char> {
    "; color: #241f20; }\n"@
}

/// The flex layout of the main area.
pub open spec fn css_p2b() -> Seq<char> {
    ".main-area { display: flex; flex: 1 1 auto; min-height: 0; }\n"@
}

/// The sidebar rule up to its width value.
pub open spec fn css_p2c() -> Seq<char> {
    ".sidebar { width: "@
}

/// The close of the sidebar rule and the content area.
pub open spec fn css_p3a() -> Seq<char> {
    "; overflow-y: auto; background: #f4f4f4; }\n.content-area { flex: 1 1 auto; overflow-y: auto; padding: 1rem; }\n"@
}

/// The footer rules.
pub open spec fn css_p3b() -> Seq<char> {
    ".footer { flex: 0 0 auto; display: flex; justify-content: space-between; align-items: center; padding: 0.5rem 1rem; background: #241f20; color: #ffffff; }\n"@
}

/// The navigation-button rules.
pub open spec fn css_p3c() -> Seq<char> {
    ".nav-button { background: #8fbb40; color: #ffffff; border: none; padding: 0.5rem 1.25rem; border-radius: 4px; cursor: pointer; }\n"@
}

/// The disabled-state rules.
pub open spec fn css_p3d() -> Seq<char> {
    ".nav-button:disabled { background: #bbbbbb; cursor: not-allowed; opacity: 0.6; }\n"@
}

/// The knowledge-check container rules.
pub open spec fn css_p3e() -> Seq<char> {
    ".knowledge-check-container { margin: 1rem 0; padding: 1rem; border: 1px solid #dddddd; border-radius: 4px; }\n"@
}

/// The fill-in-blank input rules.
pub open spec fn css_p3f() -> Seq<char> {
    ".kc-fill-blank { border: 1px solid #bbbbbb; border-radius: 3px; padding: 0.25rem 0.5rem; }\n"@
}

/// The progress indicator rule up to its display value.
pub open spec fn css_p3g() -> Seq<char> {
    ".progress-circle-container { display: "@
}

/// The close of the progress indicator rule.
pub open spec fn css_p4() -> Seq<char> {
    "; }\n"@
}

/// The print rules, present only for printable courses.
pub open spec fn css_print() -> Seq<char> {
    "@media print { .sidebar, .footer, .nav-button { display: none; } }\n"@
}

/// The opening of the stylesheet, through the main-area rules.
pub open spec fn css_head(fp: Seq<char>) -> Seq<char> {
    css_p1() + fp + css_p2a() + css_p2b()
}

/// The sidebar and content rules.
pub open spec fn css_mid(sw: Seq<char>) -> Seq<char> {
    css_p2c() + sw + css_p3a()
}

/// The remaining rules: footer, buttons, knowledge checks, progress, print.
pub open spec fn css_tail(prog: Seq<char>, printable: bool) -> Seq<char> {
    css_p3b() + css_p3c() + css_p3d() + css_p3e() + css_p3f() + css_p3g() + prog + css_p4() + (
    if printable {
        css_print()
    } else {
        Seq::<char>::empty()
    })
}

/// The whole stylesheet for the given parameter values.
pub open spec fn css_text(fp: Seq<char>, sw: Seq<char>, prog: Seq<char>, printable: bool) -> Seq<
    char,
> {
    css_head(fp) + css_mid(sw) + css_tail(prog, printable)
}

/// The base font size for a font-size setting.
pub open spec fn font_px(r: GenerateScormRequest) -> Seq<char> {
    match r.font_size {
        Some(s) => if s@ == "small"@ {
            "14px"@
        } else if s@ == "large"@ {
            "18px"@
        } else {
            "16px"@
        },
        None => "16px"@,
    }
}

/// The sidebar width: zero when the outline is hidden.
pub open spec fn sidebar_width(r: GenerateScormRequest) -> Seq<char> {
    if show_outline_eff(r) {
        "200px"@
    } else {
        "0px"@
    }
}

/// Whether the outline sidebar is shown; shown when unset.
pub open spec fn show_outline_eff(r: GenerateScormRequest) -> bool {
    match r.show_outline {
        Some(b) => b,
        None => true,
    }
}

/// Whether the progress indicator is shown; shown when unset.
pub open spec fn show_progress_eff(r: GenerateScormRequest) -> bool {
    match r.show_progress {
        Some(b) => b,
        None => true,
    }
}

/// Whether print rules are emitted; not emitted when unset.
pub open spec fn printable_eff(r: GenerateScormRequest) -> bool {
    match r.printable {
        Some(b) => b,
        None => false,
    }
}

/// The display value of the progress indicator.
pub open spec fn progress_display(r: GenerateScormRequest) -> Seq<char> {
    if show_progress_eff(r) {
        "block"@
    } else {
        "none"@
    }
}

/// The stylesheet a request renders to.
pub open spec fn css_for_request(r: GenerateScormRequest) -> Seq<char> {
    css_text(font_px(r), sidebar_width(r), progress_display(r), printable_eff(r))
}

/// The banned oversized rule that pushes the footer off screen in LMS frames.
pub open spec fn banned_min_height() -> Seq<char> {
    "min-height: 800px !important"@
}

/// The stylesheet checks, in order; each failing check contributes its message.
pub open spec fn css_errors_spec(s: Seq<char>) -> Seq<Seq<char>> {
    (if contains_seq(s, banned_min_height()) {
        seq!["Found problematic min-height: 800px !important that pushes footer off screen"@]
    } else {
        Seq::<Seq<char>>::empty()
    }) + (if !(contains_seq(s, "body"@) && contains_seq(s, "height: 100vh"@)) {
        seq!["Body should have height: 100vh for proper layout"@]
    } else {
        Seq::<Seq<char>>::empty()
    }) + (if !(contains_seq(s, ".main-area"@) && contains_seq(s, "display: flex"@)) {
        seq!["Main area should use flexbox layout"@]
    } else {
        Seq::<Seq<char>>::empty()
    }) + (if !contains_seq(s, ".footer"@) {
        seq!["Footer styles are missing"@]
    } else {
        Seq::<Seq<char>>::empty()
    }) + (if !contains_seq(s, ".nav-button"@) {
        seq!["Navigation button styles are missing"@]
    } else {
        Seq::<Seq<char>>::empty()
    }) + (if !contains_seq(s, ":disabled"@) {
        seq!["Disabled state styles are missing"@]
    } else {
        Seq::<Seq<char>>::empty()
    }) + (if !contains_seq(s, ".knowledge-check-container"@) {
        seq!["Knowledge check container styles are missing"@]
    } else {
        Seq::<Seq<char>>::empty()
    }) + (if !contains_seq(s, ".kc-fill-blank"@) {
        seq!["Fill-in-blank input styles are missing"@]
    } else {
        Seq::<Seq<char>>::empty()
    })
}

/// A stylesheet passes iff no check contributes an error.
pub open spec fn css_valid(s: Seq<char>) -> bool {
    css_errors_spec(s).len() == 0
}

/// The stylesheet renderer and checker.
#[derive(Debug)]
pub struct StyleGenerator {
    pub ready: bool,
}

impl StyleGenerator {
    /// Prepares a style generator; preparation cannot fail here.
    pub fn new() -> (r: Result<StyleGenerator, String>)
        ensures
            r is Ok,
    {
        Ok(StyleGenerator { ready: true })
    }

    /// Renders the package stylesheet for a course; the text is exactly
    /// `css_for_request`.
    #[verifier::rlimit(80)]
    pub fn generate_main_css(&self, request: &GenerateScormRequest) -> (r: Result<String, String>)
        ensures
            match r {
                Ok(text) => text@ == css_for_request(*request),
                Err(_) => false,
            },
    {
        let mut out: Vec<char> = Vec::new();
        append_str(
            &mut out,
            "body { margin: 0; padding: 0; height: 100vh; display: flex; flex-direction: column; font-family: Arial, Helvetica, sans-serif; font-size: ",
        );
        match &request.font_size {
            Some(s) => {
                let cs = string_to_chars(s.as_str());
                let small = string_to_chars("small");
                let large = string_to_chars("large");
                if chars_eq(&cs, &small) {
                    append_str(&mut out, "14px");
                } else if chars_eq(&cs, &large) {
                    append_str(&mut out, "18px");
                } else {
                    append_str(&mut out, "16px");
                }
            },
            None => append_str(&mut out, "16px"),
        }
        append_str(&mut out, "; color: #241f20; }\n");
        append_str(&mut out, ".main-area { display: flex; flex: 1 1 auto; min-height: 0; }\n");
        append_str(&mut out, ".sidebar { width: ");
        let outline = match &request.show_outline {
            Some(b) => *b,
            None => true,
        };
        if outline {
            append_str(&mut out, "200px");
        } else {
            append_str(&mut out, "0px");
        }
        append_str(
            &mut out,
            "; overflow-y: auto; background: #f4f4f4; }\n.content-area { flex: 1 1 auto; overflow-y: auto; padding: 1rem; }\n",
        );
        append_str(
            &mut out,
            ".footer { flex: 0 0 auto; display: flex; justify-content: space-between; align-items: center; padding: 0.5rem 1rem; background: #241f20; color: #ffffff; }\n",
        );
        append_str(
            &mut out,
            ".nav-button { background: #8fbb40; color: #ffffff; border: none; padding: 0.5rem 1.25rem; border-radius: 4px; cursor: pointer; }\n",
        );
        append_str(
            &mut out,
            ".nav-button:disabled { background: #bbbbbb; cursor: not-allowed; opacity: 0.6; }\n",
        );
        append_str(
            &mut out,
            ".knowledge-check-container { margin: 1rem 0; padding: 1rem; border: 1px solid #dddddd; border-radius: 4px; }\n",
        );
        append_str(
            &mut out,
            ".kc-fill-blank { border: 1px solid #bbbbbb; border-radius: 3px; padding: 0.25rem 0.5rem; }\n",
        );
        append_str(&mut out, ".progress-circle-container { display: ");
        let progress = match &request.show_progress {
            Some(b) => *b,
            None => true,
        };
        if progress {
            append_str(&mut out, "block");
        } else {
            append_str(&mut out, "none");
        }
        append_str(&mut out, "; }\n");
        let printable = match &request.printable {
            Some(b) => *b,
            None => false,
        };
        if printable {
            append_str(&mut out, "@media print { .sidebar, .footer, .nav-button { display: none; } }\n");
        }
        proof {
            assert(out@ =~= css_for_request(*request));
        }
        Ok(chars_to_string(&out))
    }

    /// Checks a stylesheet against the fixed layout rules; the error list is
    /// exactly `css_errors_spec` of the text.
    #[verifier::rlimit(80)]
    pub fn validate_css(&self, css_content: &str) -> (r: Result<(), Vec<String>>)
        ensures
            match r {
                Ok(()) => css_valid(css_content@),
                Err(errs) => !css_valid(css_content@) && errs.deep_view() == css_errors_spec(
                    css_content@,
                ),
            },
    {
        let s = string_to_chars(css_content);
        let mut errs: Vec<String> = Vec::new();
        let banned = string_to_chars("min-height: 800px !important");
        if contains_chars(&s, &banned) {
            errs.push(String::from_str(
                "Found problematic min-height: 800px !important that pushes footer off screen",
            ));
        }
        let body = string_to_chars("body");
        let vh = string_to_chars("height: 100vh");
        if !(contains_chars(&s, &body) && contains_chars(&s, &vh)) {
            errs.push(String::from_str("Body should have height: 100vh for proper layout"));
        }
        let main_area = string_to_chars(".main-area");
        let flex = string_to_chars("display: flex");
        if !(contains_chars(&s, &main_area) && contains_chars(&s, &flex)) {
            errs.push(String::from_str("Main area should use flexbox layout"));
        }
        let footer = string_to_chars(".footer");
        if !contains_chars(&s, &footer) {
            errs.push(String::from_str("Footer styles are missing"));
        }
        let nav = string_to_chars(".nav-button");
        if !contains_chars(&s, &nav) {
            errs.push(String::from_str("Navigation button styles are missing"));
        }
        let disabled = string_to_chars(":disabled");
        if !contains_chars(&s, &disabled) {
            errs.push(String::from_str("Disabled state styles are missing"));
        }
        let kc = string_to_chars(".knowledge-check-container");
        if !contains_chars(&s, &kc) {
            errs.push(String::from_str("Knowledge check container styles are missing"));
        }
        let blank = string_to_chars(".kc-fill-blank");
        if !contains_chars(&s, &blank) {
            errs.push(String::from_str("Fill-in-blank input styles are missing"));
        }
        proof {
            assert(errs.deep_view() =~~= css_errors_spec(css_content@));
        }
        if errs.len() == 0 {
            Ok(())
        } else {
            Err(errs)
        }
    }
}

/// A stylesheet holding the banned oversized rule always fails the checks,
/// and the first diagnostic names that rule; a stylesheet free of it that
/// meets the other checks passes.
pub proof fn lemma_css_validator_sound(s: Seq<char>)
    ensures
        contains_seq(s, banned_min_height()) ==> !css_valid(s) && css_errors_spec(s)[0]
            == "Found problematic min-height: 800px !important that pushes footer off screen"@,
        (!contains_seq(s, banned_min_height()) && contains_seq(s, "body"@) && contains_seq(
            s,
            "height: 100vh"@,
        ) && contains_seq(s, ".main-area"@) && contains_seq(s, "display: flex"@) && contains_seq(
            s,
            ".footer"@,
        ) && contains_seq(s, ".nav-button"@) && contains_seq(s, ":disabled"@) && contains_seq(
            s,
            ".knowledge-check-container"@,
        ) && contains_seq(s, ".kc-fill-blank"@)) ==> css_valid(s),
{
}

/// Every literal piece of the generated stylesheet, and every possible
/// parameter value, is free of `!`.
proof fn lemma_css_pieces_lack_bang()
    ensures
        lacks_char(css_p1(), '!'),
        lacks_char(css_p2a(), '!'),
        lacks_char(css_p2b(), '!'),
        lacks_char(css_p2c(), '!'),
        lacks_char(css_p3a(), '!'),
        lacks_char(css_p3b(), '!'),
        lacks_char(css_p3c(), '!'),
        lacks_char(css_p3d(), '!'),
        lacks_char(css_p3e(), '!'),
        lacks_char(css_p3f(), '!'),
        lacks_char(css_p3g(), '!'),
        lacks_char(css_p4(), '!'),
        lacks_char(css_print(), '!'),
        lacks_char("14px"@, '!'),
        lacks_char("16px"@, '!'),
        lacks_char("18px"@, '!'),
        lacks_char("200px"@, '!'),
        lacks_char("0px"@, '!'),
        lacks_char("block"@, '!'),
        lacks_char("none"@, '!'),
{
    reveal_strlit(
        "body { margin: 0; padding: 0; height: 100vh; display: flex; flex-direction: column; font-family: Arial, Helvetica, sans-serif; font-size: ",
    );
    reveal_strlit("; color: #241f20; }\n");
    reveal_strlit(".main-area { display: flex; flex: 1 1 auto; min-height: 0; }\n");
    reveal_strlit(".sidebar { width: ");
    reveal_strlit(
        "; overflow-y: auto; background: #f4f4f4; }\n.content-area { flex: 1 1 auto; overflow-y: auto; padding: 1rem; }\n",
    );
    reveal_strlit(
        ".footer { flex: 0 0 auto; display: flex; justify-content: space-between; align-items: center; padding: 0.5rem 1rem; background: #241f20; color: #ffffff; }\n",
    );
    reveal_strlit(
        ".nav-button { background: #8fbb40; color: #ffffff; border: none; padding: 0.5rem 1.25rem; border-radius: 4px; cursor: pointer; }\n",
    );
    reveal_strlit(".nav-button:disabled { background: #bbbbbb; cursor: not-allowed; opacity: 0.6; }\n");
    reveal_strlit(
        ".knowledge-check-container { margin: 1rem 0; padding: 1rem; border: 1px solid #dddddd; border-radius: 4px; }\n",
    );
    reveal_strlit(".kc-fill-blank { border: 1px solid #bbbbbb; border-radius: 3px; padding: 0.25rem 0.5rem; }\n");
    reveal_strlit(".progress-circle-container { display: ");
    reveal_strlit("; }\n");
    reveal_strlit("@media print { .sidebar, .footer, .nav-button { display: none; } }\n");
    reveal_strlit("14px");
    reveal_strlit("16px");
    reveal_strlit("18px");
    reveal_strlit("200px");
    reveal_strlit("0px");
    reveal_strlit("block");
    reveal_strlit("none");
}

/// The generated stylesheet never holds the banned oversized rule.
pub proof fn lemma_generated_css_lacks_banned(r: GenerateScormRequest)
    ensures
        !contains_seq(css_for_request(r), banned_min_height()),
{
    lemma_css_pieces_lack_bang();
    let fp = font_px(r);
    let sw = sidebar_width(r);
    let prog = progress_display(r);
    let pr = printable_eff(r);
    assert(lacks_char(fp, '!'));
    assert(lacks_char(sw, '!'));
    assert(lacks_char(prog, '!'));
    lemma_lacks_char_concat(css_p1(), fp, '!');
    lemma_lacks_char_concat(css_p1() + fp, css_p2a(), '!');
    lemma_lacks_char_concat(css_p1() + fp + css_p2a(), css_p2b(), '!');
    lemma_lacks_char_concat(css_p2c(), sw, '!');
    lemma_lacks_char_concat(css_p2c() + sw, css_p3a(), '!');
    lemma_lacks_char_concat(css_p3b(), css_p3c(), '!');
    lemma_lacks_char_concat(css_p3b() + css_p3c(), css_p3d(), '!');
    lemma_lacks_char_concat(css_p3b() + css_p3c() + css_p3d(), css_p3e(), '!');
    lemma_lacks_char_concat(css_p3b() + css_p3c() + css_p3d() + css_p3e(), css_p3f(), '!');
    lemma_lacks_char_concat(
        css_p3b() + css_p3c() + css_p3d() + css_p3e() + css_p3f(),
        css_p3g(),
        '!',
    );
    lemma_lacks_char_concat(
        css_p3b() + css_p3c() + css_p3d() + css_p3e() + css_p3f() + css_p3g(),
        prog,
        '!',
    );
    lemma_lacks_char_concat(
        css_p3b() + css_p3c() + css_p3d() + css_p3e() + css_p3f() + css_p3g() + prog,
        css_p4(),
        '!',
    );
    assert(lacks_char(
        if pr {
            css_print()
        } else {
            Seq::<char>::empty()
        },
        '!',
    ));
    lemma_lacks_char_concat(
        css_p3b() + css_p3c() + css_p3d() + css_p3e() + css_p3f() + css_p3g() + prog + css_p4(),
        if pr {
            css_print()
        } else {
            Seq::<char>::empty()
        },
        '!',
    );
    lemma_lacks_char_concat(css_head(fp), css_mid(sw), '!');
    lemma_lacks_char_concat(css_head(fp) + css_mid(sw), css_tail(prog, pr), '!');
    reveal_strlit("min-height: 800px !important");
    assert(banned_min_height()[18] == '!');
    lemma_lacks_char_not_contains(css_for_request(r), banned_min_height(), 18, '!');
}

/// The generated stylesheet carries each required rule.
pub proof fn lemma_generated_css_contains_required(r: GenerateScormRequest)
    ensures
        contains_seq(css_for_request(r), "body"@),
        contains_seq(css_for_request(r), "height: 100vh"@),
        contains_seq(css_for_request(r), ".main-area"@),
        contains_seq(css_for_request(r), "display: flex"@),
        contains_seq(css_for_request(r), ".footer"@),
        contains_seq(css_for_request(r), ".nav-button"@),
        contains_seq(css_for_request(r), ":disabled"@),
        contains_seq(css_for_request(r), ".nav-button:disabled"@),
        contains_seq(css_for_request(r), ".knowledge-check-container"@),
        contains_seq(css_for_request(r), ".kc-fill-blank"@),
{
    let fp = font_px(r);
    let sw = sidebar_width(r);
    let prog = progress_display(r);
    let pr = printable_eff(r);
    let head = css_head(fp);
    let mid = css_mid(sw);
    let tail = css_tail(prog, pr);
    reveal_strlit(
        "body { margin: 0; padding: 0; height: 100vh; display: flex; flex-direction: column; font-family: Arial, Helvetica, sans-serif; font-size: ",
    );
    reveal_strlit(".main-area { display: flex; flex: 1 1 auto; min-height: 0; }\n");
    reveal_strlit(
        ".footer { flex: 0 0 auto; display: flex; justify-content: space-between; align-items: center; padding: 0.5rem 1rem; background: #241f20; color: #ffffff; }\n",
    );
    reveal_strlit(
        ".nav-button { background: #8fbb40; color: #ffffff; border: none; padding: 0.5rem 1.25rem; border-radius: 4px; cursor: pointer; }\n",
    );
    reveal_strlit(".nav-button:disabled { background: #bbbbbb; cursor: not-allowed; opacity: 0.6; }\n");
    reveal_strlit(
        ".knowledge-check-container { margin: 1rem 0; padding: 1rem; border: 1px solid #dddddd; border-radius: 4px; }\n",
    );
    reveal_strlit(".kc-fill-blank { border: 1px solid #bbbbbb; border-radius: 3px; padding: 0.25rem 0.5rem; }\n");
    reveal_strlit("body");
    reveal_strlit("height: 100vh");
    reveal_strlit(".main-area");
    reveal_strlit("display: flex");
    reveal_strlit(".footer");
    reveal_strlit(".nav-button");
    reveal_strlit(":disabled");
    reveal_strlit(".knowledge-check-container");
    reveal_strlit(".kc-fill-blank");
    assert(occurs_at(css_p1(), "body"@, 0)) by {
        assert(css_p1().subrange(0, 4) =~= "body"@);
    }
    assert(occurs_at(css_p1(), "height: 100vh"@, 30)) by {
        assert(css_p1().subrange(30, 43) =~= "height: 100vh"@);
    }
    assert(occurs_at(css_p1(), "display: flex"@, 45)) by {
        assert(css_p1().subrange(45, 58) =~= "display: flex"@);
    }
    assert(occurs_at(css_p2b(), ".main-area"@, 0)) by {
        assert(css_p2b().subrange(0, 10) =~= ".main-area"@);
    }
    assert(occurs_at(css_p3b(), ".footer"@, 0)) by {
        assert(css_p3b().subrange(0, 7) =~= ".footer"@);
    }
    assert(occurs_at(css_p3c(), ".nav-button"@, 0)) by {
        assert(css_p3c().subrange(0, 11) =~= ".nav-button"@);
    }
    assert(occurs_at(css_p3d(), ":disabled"@, 11)) by {
        assert(css_p3d().subrange(11, 20) =~= ":disabled"@);
    }
    reveal_strlit(".nav-button:disabled");
    assert(occurs_at(css_p3d(), ".nav-button:disabled"@, 0)) by {
        assert(css_p3d().subrange(0, 20) =~= ".nav-button:disabled"@);
    }
    assert(occurs_at(css_p3e(), ".knowledge-check-container"@, 0)) by {
        assert(css_p3e().subrange(0, 26) =~= ".knowledge-check-container"@);
    }
    assert(occurs_at(css_p3f(), ".kc-fill-blank"@, 0)) by {
        assert(css_p3f().subrange(0, 14) =~= ".kc-fill-blank"@);
    }
    assert(contains_seq(css_p1(), "body"@)) by {
        assert(occurs_at(css_p1(), "body"@, 0));
    }
    assert(contains_seq(css_p1(), "height: 100vh"@)) by {
        assert(occurs_at(css_p1(), "height: 100vh"@, 30));
    }
    assert(contains_seq(css_p1(), "display: flex"@)) by {
        assert(occurs_at(css_p1(), "display: flex"@, 45));
    }
    assert(contains_seq(css_p2b(), ".main-area"@)) by {
        assert(occurs_at(css_p2b(), ".main-area"@, 0));
    }
    assert(contains_seq(css_p3b(), ".footer"@)) by {
        assert(occurs_at(css_p3b(), ".footer"@, 0));
    }
    assert(contains_seq(css_p3c(), ".nav-button"@)) by {
        assert(occurs_at(css_p3c(), ".nav-button"@, 0));
    }
    assert(contains_seq(css_p3d(), ":disabled"@)) by {
        assert(occurs_at(css_p3d(), ":disabled"@, 11));
    }
    assert(contains_seq(css_p3e(), ".knowledge-check-container"@)) by {
        assert(occurs_at(css_p3e(), ".knowledge-check-container"@, 0));
    }
    assert(contains_seq(css_p3f(), ".kc-fill-blank"@)) by {
        assert(occurs_at(css_p3f(), ".kc-fill-blank"@, 0));
    }
    lemma_lift_head(fp, sw, prog, pr, "body"@);
    lemma_lift_head(fp, sw, prog, pr, "height: 100vh"@);
    lemma_lift_head(fp, sw, prog, pr, "display: flex"@);
    lemma_lift_head(fp, sw, prog, pr, ".main-area"@);
    lemma_lift_tail(fp, sw, prog, pr, ".footer"@);
    lemma_lift_tail(fp, sw, prog, pr, ".nav-button"@);
    lemma_lift_tail(fp, sw, prog, pr, ":disabled"@);
    assert(contains_seq(css_p3d(), ".nav-button:disabled"@)) by {
        assert(occurs_at(css_p3d(), ".nav-button:disabled"@, 0));
    }
    lemma_lift_tail(fp, sw, prog, pr, ".nav-button:disabled"@);
    lemma_lift_tail(fp, sw, prog, pr, ".knowledge-check-container"@);
    lemma_lift_tail(fp, sw, prog, pr, ".kc-fill-blank"@);
}

/// A needle contained in the opening segment is contained in the whole
/// stylesheet.
proof fn lemma_lift_head(fp: Seq<char>, sw: Seq<char>, prog: Seq<char>, pr: bool, n: Seq<char>)
    requires
        contains_seq(css_p1(), n) || contains_seq(css_p2b(), n),
    ensures
        contains_seq(css_text(fp, sw, prog, pr), n),
{
    if contains_seq(css_p1(), n) {
        lemma_contains_concat(css_p1(), fp, n);
        lemma_contains_concat(css_p1() + fp, css_p2a(), n);
    }
    lemma_contains_concat(css_p1() + fp + css_p2a(), css_p2b(), n);
    lemma_contains_concat(css_head(fp), css_mid(sw), n);
    lemma_contains_concat(css_head(fp) + css_mid(sw), css_tail(prog, pr), n);
}

/// A needle contained in one of the closing rule blocks is contained in the
/// whole stylesheet.
proof fn lemma_lift_tail(fp: Seq<char>, sw: Seq<char>, prog: Seq<char>, pr: bool, n: Seq<char>)
    requires
        contains_seq(css_p3b(), n) || contains_seq(css_p3c(), n) || contains_seq(css_p3d(), n)
            || contains_seq(css_p3e(), n) || contains_seq(css_p3f(), n),
    ensures
        contains_seq(css_text(fp, sw, prog, pr), n),
{
    if contains_seq(css_p3b(), n) || contains_seq(css_p3c(), n) {
        lemma_contains_concat(css_p3b(), css_p3c(), n);
    }
    if contains_seq(css_p3b() + css_p3c(), n) || contains_seq(css_p3d(), n) {
        lemma_contains_concat(css_p3b() + css_p3c(), css_p3d(), n);
    }
    if contains_seq(css_p3b() + css_p3c() + css_p3d(), n) || contains_seq(css_p3e(), n) {
        lemma_contains_concat(css_p3b() + css_p3c() + css_p3d(), css_p3e(), n);
    }
    lemma_contains_concat(css_p3b() + css_p3c() + css_p3d() + css_p3e(), css_p3f(), n);
    lemma_contains_concat(
        css_p3b() + css_p3c() + css_p3d() + css_p3e() + css_p3f(),
        css_p3g(),
        n,
    );
    lemma_contains_concat(
        css_p3b() + css_p3c() + css_p3d() + css_p3e() + css_p3f() + css_p3g(),
        prog,
        n,
    );
    lemma_contains_concat(
        css_p3b() + css_p3c() + css_p3d() + css_p3e() + css_p3f() + css_p3g() + prog,
        css_p4(),
        n,
    );
    lemma_contains_concat(
        css_p3b() + css_p3c() + css_p3d() + css_p3e() + css_p3f() + css_p3g() + prog + css_p4(),
        if pr {
            css_print()
        } else {
            Seq::<char>::empty()
        },
        n,
    );
    lemma_contains_concat(css_head(fp) + css_mid(sw), css_tail(prog, pr), n);
}

/// The stylesheet generated for any course settings passes every check of
/// the validator.
pub proof fn lemma_generated_css_valid(r: GenerateScormRequest)
    ensures
        css_valid(css_for_request(r)),
{
    lemma_generated_css_lacks_banned(r);
    lemma_generated_css_contains_required(r);
}

} // verus!
