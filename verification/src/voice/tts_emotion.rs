//! Emotion presets and the instruction editor state of the Moxin Voice
//! text-to-speech screen.
//!
//! A preset names an emotion and carries a Chinese and an English native
//! instruction for the speech model. The editor state remembers which preset
//! (or custom text) is selected and the instruction text that goes with it.
use vstd::prelude::*;
use crate::text::{
    first_where,
    lemma_first_where_at,
    lemma_first_where_found,
    lemma_first_where_none,
    opt_text,
    same_text,
};

verus! {

pub const NEUTRAL_EMOTION_ID: &'static str = "neutral";

pub const CUSTOM_EMOTION_ID: &'static str = "custom";

pub const TTS_INSTRUCT_MAX_CHARS: usize = 200;

/// The backend that accepts native instructions.
pub const CUSTOM_VOICE_BACKEND: &'static str = "qwen3_tts_mlx";

// ── Model ────────────────────────────────────────────────────────────────────

/// The plain content of an emotion preset.
pub struct PresetModel {
    pub id: Seq<char>,
    pub label_zh: Seq<char>,
    pub label_en: Seq<char>,
    pub instruct_zh: Option<Seq<char>>,
    pub instruct_en: Option<Seq<char>>,
}

impl PresetModel {
    /// The label shown in the chosen language.
    pub open spec fn label_in(self, english: bool) -> Seq<char> {
        if english {
            self.label_en
        } else {
            self.label_zh
        }
    }

    /// The native instruction in the chosen language; English falls back to Chinese.
    pub open spec fn instruct_in(self, english: bool) -> Option<Seq<char>> {
        if english {
            match self.instruct_en {
                Some(t) => Some(t),
                None => self.instruct_zh,
            }
        } else {
            self.instruct_zh
        }
    }

    /// Whether `instruct` is one of this preset's native instructions.
    pub open spec fn has_instruct(self, instruct: Seq<char>) -> bool {
        self.instruct_zh == Some(instruct) || self.instruct_en == Some(instruct)
    }
}

/// The id of the preset at position `i` of the display order.
pub open spec fn id_at(i: int) -> Seq<char> {
    if i == 0 {
        "neutral"@
    } else if i == 1 {
        "happy"@
    } else if i == 2 {
        "angry"@
    } else if i == 3 {
        "sad"@
    } else if i == 4 {
        "gentle"@
    } else {
        "excited"@
    }
}

/// The Chinese label of the preset at position `i`.
pub open spec fn label_zh_at(i: int) -> Seq<char> {
    if i == 0 {
        "自然"@
    } else if i == 1 {
        "开心"@
    } else if i == 2 {
        "愤怒"@
    } else if i == 3 {
        "难过"@
    } else if i == 4 {
        "温柔"@
    } else {
        "兴奋"@
    }
}

/// The English label of the preset at position `i`.
pub open spec fn label_en_at(i: int) -> Seq<char> {
    if i == 0 {
        "Neutral"@
    } else if i == 1 {
        "Happy"@
    } else if i == 2 {
        "Angry"@
    } else if i == 3 {
        "Sad"@
    } else if i == 4 {
        "Gentle"@
    } else {
        "Excited"@
    }
}

/// The Chinese native instruction of the preset at position `i`.
pub open spec fn instruct_zh_at(i: int) -> Option<Seq<char>> {
    if i == 0 {
        None
    } else if i == 1 {
        Some("用开心、轻快的语气说"@)
    } else if i == 2 {
        Some("用极其愤怒、严厉斥责、情绪爆发的语气说，语调强烈，咬字有力"@)
    } else if i == 3 {
        Some("用难过、低落的语气说"@)
    } else if i == 4 {
        Some("用温柔、平静的语气说"@)
    } else {
        Some("用兴奋、充满活力的语气说"@)
    }
}

/// The English native instruction of the preset at position `i`.
pub open spec fn instruct_en_at(i: int) -> Option<Seq<char>> {
    if i == 0 {
        None
    } else if i == 1 {
        Some("Say it in a happy and lively tone"@)
    } else if i == 2 {
        Some("Use an extremely angry, stern, emotionally explosive tone, with forceful intonation and articulation."@)
    } else if i == 3 {
        Some("Say it in a sad and subdued tone"@)
    } else if i == 4 {
        Some("Say it in a gentle and calm tone"@)
    } else {
        Some("Say it in an excited and energetic tone"@)
    }
}

/// The preset at position `i` of the display order (the last one past the end).
pub open spec fn preset_at(i: int) -> PresetModel {
    PresetModel {
        id: id_at(i),
        label_zh: label_zh_at(i),
        label_en: label_en_at(i),
        instruct_zh: instruct_zh_at(i),
        instruct_en: instruct_en_at(i),
    }
}

/// The presets, in the order the screen lists them; the first one is neutral.
pub open spec fn preset_table() -> Seq<PresetModel> {
    Seq::new(6, |i: int| preset_at(i))
}

/// The preset with the given id, if there is one.
pub open spec fn find_preset(id: Seq<char>) -> Option<PresetModel> {
    first_where(preset_table(), |p: PresetModel| p.id == id)
}

/// The preset with the given id, or the neutral preset when there is none.
pub open spec fn preset_or_neutral(id: Seq<char>) -> PresetModel {
    match find_preset(id) {
        Some(p) => p,
        None => preset_table()[0],
    }
}

/// The first preset that has `instruct` as one of its native instructions.
pub open spec fn preset_with_instruct(instruct: Seq<char>) -> Option<PresetModel> {
    first_where(preset_table(), |p: PresetModel| p.has_instruct(instruct))
}

/// Which instruction the editor holds.
pub enum SelectionModel {
    Neutral,
    Preset(Seq<char>),
    Custom,
}

/// The plain content of the instruction editor state.
pub struct InstructStateModel {
    pub selection: SelectionModel,
    pub text: Seq<char>,
    pub editor_expanded: bool,
}

/// What every editor state satisfies: the selection is neutral exactly when
/// the text is empty, and a selected preset is a known, non-neutral preset
/// whose instructions include the text.
pub open spec fn state_consistent(m: InstructStateModel) -> bool {
    &&& (m.selection is Neutral <==> m.text.len() == 0)
    &&& (m.selection matches SelectionModel::Preset(id) ==> {
        &&& find_preset(id) is Some
        &&& id != "neutral"@
        &&& find_preset(id)->0.has_instruct(m.text)
    })
}

/// The state with nothing selected and the editor closed.
pub open spec fn initial_state() -> InstructStateModel {
    InstructStateModel { selection: SelectionModel::Neutral, text: Seq::empty(), editor_expanded: false }
}

/// The state after selecting the preset `id` (neutral when unknown) in the given language.
pub open spec fn with_preset(m: InstructStateModel, id: Seq<char>, english: bool) -> InstructStateModel {
    let p = preset_or_neutral(id);
    InstructStateModel {
        selection: if p.id == "neutral"@ {
            SelectionModel::Neutral
        } else {
            SelectionModel::Preset(p.id)
        },
        text: match p.instruct_in(english) {
            Some(t) => t,
            None => Seq::empty(),
        },
        editor_expanded: m.editor_expanded,
    }
}

/// The state after the user edits the text to `text`.
pub open spec fn with_text(m: InstructStateModel, text: Seq<char>) -> InstructStateModel {
    InstructStateModel {
        selection: if text.len() == 0 {
            SelectionModel::Neutral
        } else {
            SelectionModel::Custom
        },
        text: text,
        editor_expanded: m.editor_expanded,
    }
}

/// The state restored from an instruction saved in the history.
pub open spec fn from_history_model(instruct: Option<Seq<char>>) -> InstructStateModel {
    match instruct {
        None => initial_state(),
        Some(t) => if t.len() == 0 {
            initial_state()
        } else {
            InstructStateModel {
                selection: match preset_with_instruct(t) {
                    Some(p) => SelectionModel::Preset(p.id),
                    None => SelectionModel::Custom,
                },
                text: t,
                editor_expanded: false,
            }
        },
    }
}

/// The instruction that a state sends: its text, unless that is empty.
pub open spec fn effective_model(m: InstructStateModel) -> Option<Seq<char>> {
    if m.text.len() > 0 {
        Some(m.text)
    } else {
        None
    }
}

/// Whether the instruction is longer than the model accepts.
pub open spec fn over_limit_model(m: InstructStateModel) -> bool {
    m.text.len() > TTS_INSTRUCT_MAX_CHARS
}

/// The id that names a selection.
pub open spec fn selection_id_model(s: SelectionModel) -> Seq<char> {
    match s {
        SelectionModel::Neutral => "neutral"@,
        SelectionModel::Preset(id) => id,
        SelectionModel::Custom => "custom"@,
    }
}

/// Whether a request to `backend` with that kind of voice may carry an instruction.
pub open spec fn supports_instruct(backend: Seq<char>, is_builtin_voice: bool) -> bool {
    backend == "qwen3_tts_mlx"@ && is_builtin_voice
}

// ── Presets ──────────────────────────────────────────────────────────────────

#[derive(Clone, Copy, Debug, PartialEq, Eq)]
pub struct TtsEmotionPreset {
    pub id: &'static str,
    label_zh: &'static str,
    label_en: &'static str,
    instruct_zh: Option<&'static str>,
    instruct_en: Option<&'static str>,
}

impl View for TtsEmotionPreset {
    type V = PresetModel;

    closed spec fn view(&self) -> PresetModel {
        PresetModel {
            id: self.id@,
            label_zh: self.label_zh@,
            label_en: self.label_en@,
            instruct_zh: opt_text(self.instruct_zh),
            instruct_en: opt_text(self.instruct_en),
        }
    }
}

impl TtsEmotionPreset {
    /// The stable id of the preset.
    pub fn id(&self) -> (r: &'static str)
        ensures
            r@ == self@.id,
    {
        self.id
    }

    pub fn label(&self, english: bool) -> (r: &'static str)
        ensures
            r@ == self@.label_in(english),
    {
        if english {
            self.label_en
        } else {
            self.label_zh
        }
    }

    pub fn instruct(&self, english: bool) -> (r: Option<&'static str>)
        ensures
            opt_text(r) == self@.instruct_in(english),
    {
        if english {
            match self.instruct_en {
                Some(t) => Some(t),
                None => self.instruct_zh,
            }
        } else {
            self.instruct_zh
        }
    }

    /// Whether `instruct` is one of this preset's native instructions.
    fn matches_instruct(&self, instruct: &str) -> (r: bool)
        ensures
            r == self@.has_instruct(instruct@),
    {
        let zh = match self.instruct_zh {
            Some(t) => same_text(t, instruct),
            None => false,
        };
        let en = match self.instruct_en {
            Some(t) => same_text(t, instruct),
            None => false,
        };
        zh || en
    }
}

/// The emotion presets, in display order; the first one is neutral.
pub fn emotion_presets() -> (r: Vec<TtsEmotionPreset>)
    ensures
        r@.map_values(|p: TtsEmotionPreset| p@) == preset_table(),
{
    let r = vec![
        TtsEmotionPreset {
            id: NEUTRAL_EMOTION_ID,
            label_zh: "自然",
            label_en: "Neutral",
            instruct_zh: None,
            instruct_en: None,
        },
        TtsEmotionPreset {
            id: "happy",
            label_zh: "开心",
            label_en: "Happy",
            instruct_zh: Some("用开心、轻快的语气说"),
            instruct_en: Some("Say it in a happy and lively tone"),
        },
        TtsEmotionPreset {
            id: "angry",
            label_zh: "愤怒",
            label_en: "Angry",
            instruct_zh: Some("用极其愤怒、严厉斥责、情绪爆发的语气说，语调强烈，咬字有力"),
            instruct_en: Some(
                "Use an extremely angry, stern, emotionally explosive tone, with forceful intonation and articulation.",
            ),
        },
        TtsEmotionPreset {
            id: "sad",
            label_zh: "难过",
            label_en: "Sad",
            instruct_zh: Some("用难过、低落的语气说"),
            instruct_en: Some("Say it in a sad and subdued tone"),
        },
        TtsEmotionPreset {
            id: "gentle",
            label_zh: "温柔",
            label_en: "Gentle",
            instruct_zh: Some("用温柔、平静的语气说"),
            instruct_en: Some("Say it in a gentle and calm tone"),
        },
        TtsEmotionPreset {
            id: "excited",
            label_zh: "兴奋",
            label_en: "Excited",
            instruct_zh: Some("用兴奋、充满活力的语气说"),
            instruct_en: Some("Say it in an excited and energetic tone"),
        },
    ];
    assert(r@.map_values(|p: TtsEmotionPreset| p@) =~= preset_table());
    r
}

/// The preset with the given id.
pub fn emotion_preset(id: &str) -> (r: Option<TtsEmotionPreset>)
    ensures
        match r {
            Some(p) => find_preset(id@) == Some(p@),
            None => find_preset(id@) is None,
        },
{
    let presets = emotion_presets();
    let ghost table = preset_table();
    let ghost pred = |p: PresetModel| p.id == id@;
    let mut i: usize = 0;
    while i < presets.len()
        invariant
            i <= presets@.len(),
            presets@.map_values(|p: TtsEmotionPreset| p@) == table,
            table == preset_table(),
            pred == (|p: PresetModel| p.id == id@),
            forall|j: int| 0 <= j < i ==> !pred(#[trigger] table[j]),
        decreases presets@.len() - i,
    {
        assert(table[i as int] == presets@[i as int]@);
        if same_text(presets[i].id, id) {
            proof {
                lemma_first_where_at(table, pred, i as int);
            }
            return Some(presets[i]);
        }
        i = i + 1;
    }
    proof {
        lemma_first_where_none(table, pred);
    }
    None
}

/// The preset with the given id, or the neutral preset when there is none.
pub fn emotion_preset_or_neutral(id: &str) -> (r: TtsEmotionPreset)
    ensures
        r@ == preset_or_neutral(id@),
{
    match emotion_preset(id) {
        Some(p) => p,
        None => {
            let presets = emotion_presets();
            assert(presets@[0]@ == preset_table()[0]);
            presets[0]
        },
    }
}

/// The table has six presets, the `i`-th being `preset_at(i)`.
pub proof fn lemma_table_shape()
    ensures
        preset_table().len() == 6,
        forall|i: int| 0 <= i < 6 ==> #[trigger] preset_table()[i] == preset_at(i),
{
}

/// No two presets share an id (their first letters already differ).
proof fn lemma_ids_distinct(i: int, j: int)
    requires
        0 <= i < j < preset_table().len(),
    ensures
        preset_table()[i].id != preset_table()[j].id,
{
    lemma_table_shape();
    reveal_strlit("neutral");
    reveal_strlit("happy");
    reveal_strlit("angry");
    reveal_strlit("sad");
    reveal_strlit("gentle");
    reveal_strlit("excited");
    assert(id_at(i)[0] != id_at(j)[0]);
}

/// Every preset in the table is found again by its own id.
pub proof fn lemma_preset_found_by_id(k: int)
    requires
        0 <= k < preset_table().len(),
    ensures
        find_preset(preset_table()[k].id) == Some(preset_table()[k]),
{
    let t = preset_table();
    assert forall|j: int| 0 <= j < k implies t[j].id != t[k].id by {
        lemma_ids_distinct(j, k);
    }
    lemma_first_where_at(t, |p: PresetModel| p.id == t[k].id, k);
}

/// Every non-neutral preset has a non-empty Chinese instruction, and the
/// neutral one has none in either language.
proof fn lemma_preset_instructs()
    ensures
        preset_table()[0].instruct_zh is None,
        preset_table()[0].instruct_en is None,
        preset_table()[0].id == "neutral"@,
        forall|k: int|
            1 <= k < preset_table().len() ==> {
                &&& (#[trigger] preset_table()[k]).id != "neutral"@
                &&& preset_table()[k].instruct_zh matches Some(t) && t.len() > 0
                &&& preset_table()[k].instruct_en matches Some(t) && t.len() > 0
            },
{
    lemma_table_shape();
    reveal_strlit("用开心、轻快的语气说");
    reveal_strlit("用极其愤怒、严厉斥责、情绪爆发的语气说，语调强烈，咬字有力");
    reveal_strlit("用难过、低落的语气说");
    reveal_strlit("用温柔、平静的语气说");
    reveal_strlit("用兴奋、充满活力的语气说");
    reveal_strlit("Say it in a happy and lively tone");
    reveal_strlit("Use an extremely angry, stern, emotionally explosive tone, with forceful intonation and articulation.");
    reveal_strlit("Say it in a sad and subdued tone");
    reveal_strlit("Say it in a gentle and calm tone");
    reveal_strlit("Say it in an excited and energetic tone");
    assert forall|k: int| 1 <= k < preset_table().len() implies {
        &&& (#[trigger] preset_table()[k]).id != "neutral"@
        &&& preset_table()[k].instruct_zh matches Some(t) && t.len() > 0
        &&& preset_table()[k].instruct_en matches Some(t) && t.len() > 0
    } by {
        lemma_ids_distinct(0, k);
        assert(instruct_zh_at(k)->0.len() > 0);
        assert(instruct_en_at(k)->0.len() > 0);
    }
}

/// Selecting any id gives a consistent state.
proof fn lemma_with_preset_consistent(m: InstructStateModel, id: Seq<char>, english: bool)
    ensures
        state_consistent(with_preset(m, id, english)),
{
    lemma_preset_instructs();
    let t = preset_table();
    let pred = |p: PresetModel| p.id == id;
    lemma_first_where_found(t, pred);
    match find_preset(id) {
        Some(p) => {
            let k = choose|k: int| 0 <= k < t.len() && t[k] == p;
            lemma_preset_found_by_id(k);
            if k == 0 {
                assert(p.id == "neutral"@);
            } else {
                assert(t[k].instruct_zh is Some);
            }
        },
        None => {},
    }
}

/// The native instruction of the preset at position `i` in the chosen language,
/// for a preset that has one.
pub open spec fn instruct_text_at(i: int, english: bool) -> Seq<char> {
    if english {
        instruct_en_at(i)->0
    } else {
        instruct_zh_at(i)->0
    }
}

/// No two native instructions of the non-neutral presets are the same text.
proof fn lemma_instructs_distinct(j: int, ej: bool, k: int, ek: bool)
    requires
        1 <= j < 6,
        1 <= k < 6,
        j != k || ej != ek,
    ensures
        instruct_text_at(j, ej) != instruct_text_at(k, ek),
{
    reveal_strlit("用开心、轻快的语气说");
    reveal_strlit("用极其愤怒、严厉斥责、情绪爆发的语气说，语调强烈，咬字有力");
    reveal_strlit("用难过、低落的语气说");
    reveal_strlit("用温柔、平静的语气说");
    reveal_strlit("用兴奋、充满活力的语气说");
    reveal_strlit("Say it in a happy and lively tone");
    reveal_strlit("Use an extremely angry, stern, emotionally explosive tone, with forceful intonation and articulation.");
    reveal_strlit("Say it in a sad and subdued tone");
    reveal_strlit("Say it in a gentle and calm tone");
    reveal_strlit("Say it in an excited and energetic tone");
    let a = instruct_text_at(j, ej);
    let b = instruct_text_at(k, ek);
    assert(a.len() != b.len() || a[0] != b[0] || a[1] != b[1] || a[12] != b[12]);
}

/// Restoring the saved instruction of a preset, in either language, gives back
/// the same state as selecting that preset in that language.
pub proof fn lemma_history_restores_preset(k: int, english: bool)
    requires
        1 <= k < preset_table().len(),
    ensures
        from_history_model(preset_table()[k].instruct_in(english)) == with_preset(
            initial_state(),
            preset_table()[k].id,
            english,
        ),
{
    lemma_table_shape();
    lemma_preset_instructs();
    lemma_preset_found_by_id(k);
    let t = preset_table();
    let text = instruct_text_at(k, english);
    assert(t[k].instruct_in(english) == Some(text));
    assert forall|j: int| 0 <= j < k implies !(#[trigger] t[j]).has_instruct(text) by {
        if j > 0 {
            lemma_instructs_distinct(j, false, k, english);
            lemma_instructs_distinct(j, true, k, english);
        }
    }
    lemma_first_where_at(t, |p: PresetModel| p.has_instruct(text), k);
}

/// `custom` names a state of the editor, not a preset.
pub proof fn lemma_custom_is_not_a_preset()
    ensures
        find_preset("custom"@) is None,
{
    lemma_table_shape();
    reveal_strlit("custom");
    reveal_strlit("neutral");
    reveal_strlit("happy");
    reveal_strlit("angry");
    reveal_strlit("sad");
    reveal_strlit("gentle");
    reveal_strlit("excited");
    let t = preset_table();
    assert forall|j: int| 0 <= j < t.len() implies (#[trigger] t[j]).id != "custom"@ by {
        assert(id_at(j)[0] != "custom"@[0]);
    }
    lemma_first_where_none(t, |p: PresetModel| p.id == "custom"@);
}

/// Selecting Neutral, or an id that names no preset, clears the instruction and
/// selects Neutral; only the editor's open state is kept.
pub proof fn lemma_neutral_or_unknown_clears(m: InstructStateModel, id: Seq<char>, english: bool)
    requires
        id == "neutral"@ || find_preset(id) is None,
    ensures
        with_preset(m, id, english) == (InstructStateModel {
            selection: SelectionModel::Neutral,
            text: Seq::empty(),
            editor_expanded: m.editor_expanded,
        }),
{
    lemma_table_shape();
    lemma_preset_instructs();
    lemma_preset_found_by_id(0);
}

/// Selecting a preset discards the previous text and selection: the result
/// depends only on the id, the language and whether the editor is open.
pub proof fn lemma_selecting_discards_previous_text(
    m1: InstructStateModel,
    m2: InstructStateModel,
    id: Seq<char>,
    english: bool,
)
    requires
        m1.editor_expanded == m2.editor_expanded,
    ensures
        with_preset(m1, id, english) == with_preset(m2, id, english),
{
}

// ── Editor state ─────────────────────────────────────────────────────────────

#[derive(Clone, Copy, Debug, Default, PartialEq, Eq)]
pub enum TtsInstructSelection {
    #[default]
    Neutral,
    Preset(&'static str),
    Custom,
}

impl View for TtsInstructSelection {
    type V = SelectionModel;

    open spec fn view(&self) -> SelectionModel {
        match self {
            TtsInstructSelection::Neutral => SelectionModel::Neutral,
            TtsInstructSelection::Preset(id) => SelectionModel::Preset(id@),
            TtsInstructSelection::Custom => SelectionModel::Custom,
        }
    }
}

#[derive(Debug, PartialEq, Eq)]
pub struct TtsInstructState {
    selection: TtsInstructSelection,
    text: String,
    editor_expanded: bool,
}

impl View for TtsInstructState {
    type V = InstructStateModel;

    closed spec fn view(&self) -> InstructStateModel {
        InstructStateModel {
            selection: self.selection@,
            text: self.text@,
            editor_expanded: self.editor_expanded,
        }
    }
}

impl Clone for TtsInstructState {
    fn clone(&self) -> (r: Self)
        ensures
            r@ == self@,
    {
        proof {
            use_type_invariant(self);
        }
        TtsInstructState {
            selection: self.selection,
            text: self.text.clone(),
            editor_expanded: self.editor_expanded,
        }
    }
}

impl Default for TtsInstructState {
    fn default() -> (r: Self)
        ensures
            r@ == initial_state(),
    {
        TtsInstructState {
            selection: TtsInstructSelection::Neutral,
            text: String::new(),
            editor_expanded: false,
        }
    }
}

impl TtsInstructState {
    #[verifier::type_invariant]
    spec fn consistent(self) -> bool {
        state_consistent(self@)
    }

    /// A fresh state with the preset `id` selected in the given language.
    pub fn from_preset(id: &str, english: bool) -> (r: Self)
        ensures
            r@ == with_preset(initial_state(), id@, english),
    {
        let mut state = Self::default();
        state.select_preset(id, english);
        state
    }

    /// The state restored from an instruction saved with an earlier request.
    pub fn from_history(instruct: Option<&str>) -> (r: Self)
        ensures
            r@ == from_history_model(opt_text(instruct)),
    {
        let saved = match instruct {
            Some(t) => t,
            None => return Self::default(),
        };
        if saved.is_empty() {
            return Self::default();
        }
        let presets = emotion_presets();
        let ghost table = preset_table();
        let ghost pred = |p: PresetModel| p.has_instruct(saved@);
        let mut i: usize = 0;
        while i < presets.len()
            invariant
                i <= presets@.len(),
                presets@.map_values(|p: TtsEmotionPreset| p@) == table,
                table == preset_table(),
                pred == (|p: PresetModel| p.has_instruct(saved@)),
                forall|j: int| 0 <= j < i ==> !pred(#[trigger] table[j]),
                instruct == Some(saved),
                saved@.len() > 0,
            decreases presets@.len() - i,
        {
            assert(table[i as int] == presets@[i as int]@);
            if presets[i].matches_instruct(saved) {
                proof {
                    lemma_first_where_at(table, pred, i as int);
                    lemma_preset_instructs();
                    if i == 0 {
                        assert(!pred(table[0]));
                    }
                    lemma_preset_found_by_id(i as int);
                }
                return TtsInstructState {
                    selection: TtsInstructSelection::Preset(presets[i].id),
                    text: saved.to_owned(),
                    editor_expanded: false,
                };
            }
            i = i + 1;
        }
        proof {
            lemma_first_where_none(table, pred);
        }
        TtsInstructState {
            selection: TtsInstructSelection::Custom,
            text: saved.to_owned(),
            editor_expanded: false,
        }
    }

    /// Selects the preset `id` (neutral when unknown) and loads its instruction.
    pub fn select_preset(&mut self, id: &str, english: bool)
        ensures
            final(self)@ == with_preset(old(self)@, id@, english),
    {
        let preset = emotion_preset_or_neutral(id);
        let text = match preset.instruct(english) {
            Some(t) => t.to_owned(),
            None => String::new(),
        };
        let selection = if same_text(preset.id, NEUTRAL_EMOTION_ID) {
            TtsInstructSelection::Neutral
        } else {
            TtsInstructSelection::Preset(preset.id)
        };
        proof {
            lemma_with_preset_consistent(self@, id@, english);
        }
        *self = TtsInstructState { selection, text, editor_expanded: self.editor_expanded };
    }

    /// Replaces the text with what the user typed; it is kept exactly, untrimmed.
    pub fn edit(&mut self, text: String)
        ensures
            final(self)@ == with_text(old(self)@, text@),
    {
        let selection = if text.as_str().is_empty() {
            TtsInstructSelection::Neutral
        } else {
            TtsInstructSelection::Custom
        };
        *self = TtsInstructState { selection, text, editor_expanded: self.editor_expanded };
    }

    pub fn collapse(&mut self)
        ensures
            final(self)@ == (InstructStateModel { editor_expanded: false, ..old(self)@ }),
    {
        proof {
            use_type_invariant(&*self);
        }
        self.editor_expanded = false;
    }

    pub fn toggle_editor(&mut self)
        ensures
            final(self)@ == (InstructStateModel {
                editor_expanded: !old(self)@.editor_expanded,
                ..old(self)@
            }),
    {
        proof {
            use_type_invariant(&*self);
        }
        self.editor_expanded = !self.editor_expanded;
    }

    /// The current selection. It is neutral exactly when the text is empty, and a
    /// selected preset is always a known, non-neutral one.
    pub fn selection(&self) -> (r: TtsInstructSelection)
        ensures
            r@ == self@.selection,
            state_consistent(self@),
    {
        proof {
            use_type_invariant(self);
        }
        self.selection
    }

    pub fn selection_id(&self) -> (r: &'static str)
        ensures
            r@ == selection_id_model(self@.selection),
    {
        match self.selection {
            TtsInstructSelection::Neutral => NEUTRAL_EMOTION_ID,
            TtsInstructSelection::Preset(id) => id,
            TtsInstructSelection::Custom => CUSTOM_EMOTION_ID,
        }
    }

    pub fn text(&self) -> (r: &str)
        ensures
            r@ == self@.text,
    {
        self.text.as_str()
    }

    pub fn editor_expanded(&self) -> (r: bool)
        ensures
            r == self@.editor_expanded,
    {
        self.editor_expanded
    }

    /// The instruction to send: the text, or nothing when it is empty (which
    /// is exactly when the selection is neutral).
    pub fn effective_instruct(&self) -> (r: Option<&str>)
        ensures
            opt_text(r) == effective_model(self@),
            r is None <==> self@.selection is Neutral,
    {
        proof {
            use_type_invariant(self);
        }
        if !self.text.as_str().is_empty() {
            Some(self.text.as_str())
        } else {
            None
        }
    }

    /// The length of the text in Unicode scalar values.
    pub fn char_count(&self) -> (r: usize)
        ensures
            r == self@.text.len(),
    {
        self.text.as_str().unicode_len()
    }

    pub fn is_over_limit(&self) -> (r: bool)
        ensures
            r == over_limit_model(self@),
    {
        self.char_count() > TTS_INSTRUCT_MAX_CHARS
    }
}

// ── Requests ─────────────────────────────────────────────────────────────────

pub fn supports_custom_voice_instruct(backend: &str, is_builtin_voice: bool) -> (r: bool)
    ensures
        r == supports_instruct(backend@, is_builtin_voice),
{
    same_text(backend, CUSTOM_VOICE_BACKEND) && is_builtin_voice
}

/// The instruction sent with a request; none when the backend or voice cannot take one.
pub fn instruct_for_request<'a>(
    state: &'a TtsInstructState,
    backend: &str,
    is_builtin_voice: bool,
) -> (r: Option<&'a str>)
    ensures
        opt_text(r) == if supports_instruct(backend@, is_builtin_voice) {
            effective_model(state@)
        } else {
            None
        },
{
    if supports_custom_voice_instruct(backend, is_builtin_voice) {
        state.effective_instruct()
    } else {
        None
    }
}

/// The selection recorded with a request; neutral when the request takes no instruction.
pub fn selection_for_request(
    state: &TtsInstructState,
    backend: &str,
    is_builtin_voice: bool,
) -> (r: TtsInstructSelection)
    ensures
        r@ == if supports_instruct(backend@, is_builtin_voice) {
            state@.selection
        } else {
            SelectionModel::Neutral
        },
{
    if supports_custom_voice_instruct(backend, is_builtin_voice) {
        state.selection()
    } else {
        TtsInstructSelection::Neutral
    }
}

/// Whether the request is blocked by an over-long instruction; a request that
/// takes no instruction never is.
pub fn instruct_is_over_limit_for_request(
    state: &TtsInstructState,
    backend: &str,
    is_builtin_voice: bool,
) -> (r: bool)
    ensures
        r == (supports_instruct(backend@, is_builtin_voice) && over_limit_model(state@)),
{
    supports_custom_voice_instruct(backend, is_builtin_voice) && state.is_over_limit()
}

} // verus!
