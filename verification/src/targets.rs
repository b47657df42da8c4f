use vstd::prelude::*;

verus! {

/// A window that can be captured. `raw_handle` is the platform's own
/// identifier of the window.
#[derive(Debug, Clone)]
pub struct Window {
    pub id: u32,
    pub title: String,
    pub raw_handle: u32,
}

/// A display that can be captured. `raw_handle` is the platform's own
/// identifier of the display.
#[derive(Debug, Clone)]
pub struct Display {
    pub id: u32,
    pub title: String,
    pub raw_handle: u32,
}

/// Something that can be captured.
#[derive(Debug, Clone)]
pub enum Target {
    Window(Window),
    Display(Display),
}

/// An error met while looking up capture targets.
#[derive(Debug)]
pub struct TargetError(String);

impl TargetError {
    /// The text of this error.
    pub closed spec fn text(&self) -> String {
        self.0
    }

    /// An error whose text is what `to_string` gives for `error`.
    pub fn new<E: std::fmt::Display>(error: E) -> (e: Self)
        ensures
            vstd::string::to_string_from_display_ensures::<E>(&error, e.text()),
    {
        TargetError(error.to_string())
    }

    /// The text of this error.
    pub fn message(&self) -> (m: &str)
        ensures
            m@ == self.text()@,
    {
        self.0.as_str()
    }
}

/// The target a capture reads: the requested one, or else the main display,
/// which `main_display` is asked for only then.
pub fn resolve_target<F: FnOnce() -> Result<Display, TargetError>>(requested: Option<Target>, main_display: F) -> (r:
    Result<Target, TargetError>)
    requires
        requested is None ==> call_requires(main_display, ()),
    ensures
        match requested {
            Some(t) => r == Ok::<Target, TargetError>(t),
            None => exists|m: Result<Display, TargetError>|
                call_ensures(main_display, (), m) && r == match m {
                    Ok(d) => Ok::<Target, TargetError>(Target::Display(d)),
                    Err(e) => Err::<Target, TargetError>(e),
                },
        },
{
    match requested {
        Some(target) => Ok(target),
        None => match main_display() {
            Ok(display) => Ok(Target::Display(display)),
            Err(error) => Err(error),
        },
    }
}

/// The decimal digit character for `d`.
pub open spec fn digit_char(d: nat) -> char {
    if d == 0 {
        '0'
    } else if d == 1 {
        '1'
    } else if d == 2 {
        '2'
    } else if d == 3 {
        '3'
    } else if d == 4 {
        '4'
    } else if d == 5 {
        '5'
    } else if d == 6 {
        '6'
    } else if d == 7 {
        '7'
    } else if d == 8 {
        '8'
    } else {
        '9'
    }
}

/// `n` written in decimal, without leading zeros.
pub open spec fn decimal(n: nat) -> Seq<char>
    decreases n,
{
    if n < 10 {
        seq![digit_char(n)]
    } else {
        decimal(n / 10).push(digit_char(n % 10))
    }
}

fn digit_str(d: u32) -> (s: &'static str)
    requires
        d < 10,
    ensures
        s@ == seq![digit_char(d as nat)],
{
    match d {
        0 => {
            proof {
                reveal_strlit("0");
            }
            "0"
        },
        1 => {
            proof {
                reveal_strlit("1");
            }
            "1"
        },
        2 => {
            proof {
                reveal_strlit("2");
            }
            "2"
        },
        3 => {
            proof {
                reveal_strlit("3");
            }
            "3"
        },
        4 => {
            proof {
                reveal_strlit("4");
            }
            "4"
        },
        5 => {
            proof {
                reveal_strlit("5");
            }
            "5"
        },
        6 => {
            proof {
                reveal_strlit("6");
            }
            "6"
        },
        7 => {
            proof {
                reveal_strlit("7");
            }
            "7"
        },
        8 => {
            proof {
                reveal_strlit("8");
            }
            "8"
        },
        _ => {
            proof {
                reveal_strlit("9");
            }
            "9"
        },
    }
}

/// `n` written in decimal.
fn decimal_string(n: u32) -> (s: String)
    ensures
        s@ == decimal(n as nat),
    decreases n,
{
    if n < 10 {
        String::from_str(digit_str(n))
    } else {
        let prefix = decimal_string(n / 10);
        prefix.concat(digit_str(n % 10))
    }
}

/// The position of the first occurrence of `id` in `ids`.
pub open spec fn first_index_of(ids: Seq<u32>, id: u32) -> Option<int> {
    if exists|i: int| 0 <= i < ids.len() && ids[i] == id {
        Some(choose|i: int| 0 <= i < ids.len() && ids[i] == id && forall|j: int| 0 <= j < i ==> ids[j] != id)
    } else {
        None
    }
}

/// `first_index_of` is the least position that holds `id`, and is `None`
/// exactly when no position does.
pub proof fn lemma_first_index_of(ids: Seq<u32>, id: u32)
    ensures
        match first_index_of(ids, id) {
            Some(i) => 0 <= i < ids.len() && ids[i] == id && forall|j: int| 0 <= j < i ==> ids[j] != id,
            None => forall|j: int| 0 <= j < ids.len() ==> ids[j] != id,
        },
{
    if exists|i: int| 0 <= i < ids.len() && ids[i] == id {
        let w = choose|i: int| 0 <= i < ids.len() && ids[i] == id;
        lemma_least_match(ids, id, w);
    }
}

proof fn lemma_least_match(ids: Seq<u32>, id: u32, w: int)
    requires
        0 <= w < ids.len(),
        ids[w] == id,
    ensures
        exists|i: int| 0 <= i < ids.len() && ids[i] == id && forall|j: int| 0 <= j < i ==> ids[j] != id,
    decreases w,
{
    if exists|j: int| 0 <= j < w && ids[j] == id {
        let v = choose|j: int| 0 <= j < w && ids[j] == id;
        lemma_least_match(ids, id, v);
    } else {
        assert(0 <= w < ids.len() && ids[w] == id && forall|j: int| 0 <= j < w ==> ids[j] != id);
    }
}

/// What a capture of a window or a display reads from the shareable content:
/// the window alone, or the display without some of the windows. Windows and
/// displays are named by their position in the lists of the content.
#[derive(Debug, Clone, PartialEq, Eq)]
pub enum ContentFilter {
    Window(usize),
    Display { display: usize, excluded_windows: Vec<usize> },
}

/// Whether the window `window_id` is one of the excluded targets.
pub open spec fn is_excluded(window_id: u32, excluded: Option<Seq<Target>>) -> bool {
    match excluded {
        Some(targets) => exists|k: int|
            0 <= k < targets.len() && (#[trigger] targets[k] matches Target::Window(w) && w.id == window_id),
        None => false,
    }
}

/// The targets of an optional list.
pub open spec fn targets_view(targets: Option<&Vec<Target>>) -> Option<Seq<Target>> {
    match targets {
        Some(v) => Some(v@),
        None => None,
    }
}

/// `indices` lists, in increasing order, exactly the positions in
/// `window_ids` of the windows that are excluded.
pub open spec fn lists_excluded(indices: Seq<usize>, window_ids: Seq<u32>, excluded: Option<Seq<Target>>) -> bool {
    &&& forall|k: int| 0 <= k < indices.len() ==> #[trigger] indices[k] < window_ids.len()
    &&& forall|k: int| 0 <= k < indices.len() ==> is_excluded(window_ids[#[trigger] indices[k] as int], excluded)
    &&& forall|k: int, l: int| 0 <= k < l < indices.len() ==> #[trigger] indices[k] < #[trigger] indices[l]
    &&& forall|i: int| 0 <= i < window_ids.len() && is_excluded(window_ids[i], excluded)
        ==> #[trigger] indices.contains(i as usize)
}

/// Without excluded targets, or with only displays excluded, a display is
/// captured with all its windows.
pub proof fn lemma_nothing_excluded_without_excluded_windows(
    indices: Seq<usize>,
    window_ids: Seq<u32>,
    excluded: Option<Seq<Target>>,
)
    requires
        lists_excluded(indices, window_ids, excluded),
        excluded matches Some(targets) ==> forall|k: int| 0 <= k < targets.len() ==> #[trigger] targets[k] is Display,
    ensures
        indices.len() == 0,
{
    if indices.len() > 0 {
        assert(is_excluded(window_ids[indices[0] as int], excluded));
    }
}

/// The error text for a window that is not among the shareable content.
pub open spec fn window_unavailable(id: u32) -> Seq<char> {
    "Window "@ + decimal(id as nat) + " is no longer available"@
}

/// The error text for a display that is not among the shareable content.
pub open spec fn display_unavailable(id: u32) -> Seq<char> {
    "Display "@ + decimal(id as nat) + " is no longer available"@
}

fn find_first(ids: &[u32], id: u32) -> (r: Option<usize>)
    ensures
        match r {
            Some(i) => first_index_of(ids@, id) == Some(i as int),
            None => first_index_of(ids@, id) is None,
        },
{
    let mut i: usize = 0;
    while i < ids.len()
        invariant
            i <= ids@.len(),
            forall|j: int| 0 <= j < i ==> ids@[j] != id,
        decreases ids@.len() - i,
    {
        if ids[i] == id {
            let ghost c = choose|k: int| 0 <= k < ids@.len() && ids@[k] == id && forall|j: int| 0 <= j < k ==> ids@[j] != id;
            assert(0 <= i < ids@.len() && ids@[i as int] == id && forall|j: int| 0 <= j < i ==> ids@[j] != id);
            proof {
                if c < i {
                } else if c > i {
                    assert(ids@[i as int] != id);
                }
            }
            return Some(i);
        }
        i = i + 1;
    }
    None
}

fn excludes_window(excluded: &Vec<Target>, window_id: u32) -> (b: bool)
    ensures
        b == is_excluded(window_id, Some(excluded@)),
{
    let mut k: usize = 0;
    while k < excluded.len()
        invariant
            k <= excluded@.len(),
            forall|j: int| 0 <= j < k ==> !(#[trigger] excluded@[j] matches Target::Window(w) && w.id == window_id),
        decreases excluded@.len() - k,
    {
        match &excluded[k] {
            Target::Window(w) => {
                if w.id == window_id {
                    assert(excluded@[k as int] matches Target::Window(w) && w.id == window_id);
                    return true;
                }
            },
            Target::Display(_) => {},
        }
        k = k + 1;
    }
    false
}

/// Positions, in increasing order, of the windows in `window_ids` that are
/// among the excluded targets.
fn excluded_window_indices(window_ids: &[u32], excluded: Option<&Vec<Target>>) -> (r: Vec<usize>)
    ensures
        lists_excluded(r@, window_ids@, targets_view(excluded)),
{
    let ghost ex = targets_view(excluded);
    let mut r: Vec<usize> = Vec::new();
    let mut i: usize = 0;
    while i < window_ids.len()
        invariant
            i <= window_ids@.len(),
            ex == targets_view(excluded),
            forall|k: int| 0 <= k < r@.len() ==> #[trigger] r@[k] < i,
            forall|k: int| 0 <= k < r@.len() ==> is_excluded(window_ids@[#[trigger] r@[k] as int], ex),
            forall|k: int, l: int| 0 <= k < l < r@.len() ==> #[trigger] r@[k] < #[trigger] r@[l],
            forall|j: int| 0 <= j < i && is_excluded(window_ids@[j], ex) ==> #[trigger] r@.contains(j as usize),
        decreases window_ids@.len() - i,
    {
        let hit = match excluded {
            Some(targets) => excludes_window(targets, window_ids[i]),
            None => false,
        };
        let ghost old_r = r@;
        if hit {
            r.push(i);
            assert forall|j: int| 0 <= j < i + 1 && is_excluded(window_ids@[j], ex) implies #[trigger] r@.contains(j as usize) by {
                if j < i {
                    assert(old_r.contains(j as usize));
                    let w = choose|w: int| 0 <= w < old_r.len() && old_r[w] == j as usize;
                    assert(r@[w] == j as usize);
                } else {
                    assert(r@[old_r.len() as int] == i);
                }
            }
        }
        i = i + 1;
    }
    r
}

/// The content filter that captures `target`, given the ids of the windows
/// and displays that can be shared, in their order: the first window or
/// display with the target's id; for a display, without the windows that
/// `excluded` names. A target that is not among them is an error.
pub open spec fn spec_content_filter_ok(
    target: Target,
    window_ids: Seq<u32>,
    display_ids: Seq<u32>,
    excluded: Option<Seq<Target>>,
    r: Result<ContentFilter, String>,
) -> bool {
    match target {
        Target::Window(w) => match first_index_of(window_ids, w.id) {
            Some(i) => r == Ok::<ContentFilter, String>(ContentFilter::Window(i as usize)),
            None => r matches Err(e) && e@ == window_unavailable(w.id),
        },
        Target::Display(d) => match first_index_of(display_ids, d.id) {
            Some(i) => r matches Ok(ContentFilter::Display { display, excluded_windows })
                && display == i && lists_excluded(excluded_windows@, window_ids, excluded),
            None => r matches Err(e) && e@ == display_unavailable(d.id),
        },
    }
}

/// A display capture excludes exactly the windows that some excluded target
/// names: a window position is listed when, and only when, any one of the
/// excluded targets, at any position, is a window with that window's id.
/// The display read is the first one with the target's id.
pub proof fn lemma_display_capture_excludes_named_windows(
    d: Display,
    window_ids: Seq<u32>,
    display_ids: Seq<u32>,
    excluded: Seq<Target>,
    r: Result<ContentFilter, String>,
    i: int,
)
    requires
        spec_content_filter_ok(Target::Display(d), window_ids, display_ids, Some(excluded), r),
        display_ids.len() <= usize::MAX,
        window_ids.len() <= usize::MAX,
        exists|j: int| 0 <= j < display_ids.len() && display_ids[j] == d.id,
        0 <= i < window_ids.len(),
    ensures
        r matches Ok(ContentFilter::Display { display, excluded_windows }) && {
            &&& display < display_ids.len()
            &&& display_ids[display as int] == d.id
            &&& forall|j: int| 0 <= j < display ==> display_ids[j] != d.id
            &&& forall|k: int| 0 <= k < excluded_windows@.len() ==> #[trigger] excluded_windows@[k] < window_ids.len()
            &&& excluded_windows@.contains(i as usize) <==> exists|k: int|
                0 <= k < excluded.len() && (#[trigger] excluded[k] matches Target::Window(w) && w.id == window_ids[i])
        },
{
    lemma_first_index_of(display_ids, d.id);
    if let Ok(ContentFilter::Display { display, excluded_windows }) = r {
        if excluded_windows@.contains(i as usize) {
            let k = choose|k: int| 0 <= k < excluded_windows@.len() && excluded_windows@[k] == i as usize;
            assert(is_excluded(window_ids[excluded_windows@[k] as int], Some(excluded)));
        }
        if exists|k: int|
            0 <= k < excluded.len() && (#[trigger] excluded[k] matches Target::Window(w) && w.id == window_ids[i]) {
            assert(is_excluded(window_ids[i], Some(excluded)));
            assert(excluded_windows@.contains(i as usize));
        }
    }
}

/// A window capture reads the first window with the target's id, and fails
/// with "Window <id> is no longer available" when there is none.
pub proof fn lemma_window_capture_reads_first_match(
    w: Window,
    window_ids: Seq<u32>,
    display_ids: Seq<u32>,
    excluded: Option<Seq<Target>>,
    r: Result<ContentFilter, String>,
)
    requires
        spec_content_filter_ok(Target::Window(w), window_ids, display_ids, excluded, r),
        window_ids.len() <= usize::MAX,
    ensures
        match r {
            Ok(ContentFilter::Window(i)) => i < window_ids.len() && window_ids[i as int] == w.id
                && forall|j: int| 0 <= j < i ==> window_ids[j] != w.id,
            Ok(_) => false,
            Err(e) => (forall|j: int| 0 <= j < window_ids.len() ==> window_ids[j] != w.id)
                && e@ == "Window "@ + decimal(w.id as nat) + " is no longer available"@,
        },
{
    lemma_first_index_of(window_ids, w.id);
}

/// Chooses what a capture of `target` reads from the shareable content,
/// whose windows and displays have the ids `window_ids` and `display_ids`.
pub fn select_content(
    target: &Target,
    window_ids: &[u32],
    display_ids: &[u32],
    excluded: Option<&Vec<Target>>,
) -> (r: Result<ContentFilter, String>)
    ensures
        spec_content_filter_ok(*target, window_ids@, display_ids@, targets_view(excluded), r),
{
    match target {
        Target::Window(w) => match find_first(window_ids, w.id) {
            Some(i) => Ok(ContentFilter::Window(i)),
            None => {
                let text = String::from_str("Window ").concat(decimal_string(w.id).as_str()).concat(
                    " is no longer available",
                );
                Err(text)
            },
        },
        Target::Display(d) => match find_first(display_ids, d.id) {
            Some(i) => {
                let excluded_windows = excluded_window_indices(window_ids, excluded);
                Ok(ContentFilter::Display { display: i, excluded_windows })
            },
            None => {
                let text = String::from_str("Display ").concat(decimal_string(d.id).as_str()).concat(
                    " is no longer available",
                );
                Err(text)
            },
        },
    }
}

} // verus!
