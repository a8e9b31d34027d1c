//! The scripted material of the conversation: the stage texts and the
//! bank of pre-recorded audios, their defaults, the stage a chat starts
//! at, and the rotation that picks the attendant a chat is handed to.
use vstd::prelude::*;
use crate::conversation::StageConfig;
use crate::json::{JsonValue, as_str, field, field_spec, str_or};
use crate::text::{decimal, parse_usize, parse_usize_spec, usize_to_decimal, law_parse_usize_inverts_decimal};
use crate::webhook::strings_view;

verus! {

pub const GREETING_MORNING: &'static str = "Olá, bom dia! Sou o Leandro da equipe da Tubarão Bombas. É um prazer falar com você. Estou aqui para ajudar a encontrar a bomba solar ideal para o seu projeto. Para começarmos, você poderia me dizer qual é a fonte de água que você vai utilizar, por exemplo, poço artesiano, rio, represa ou cacimba?";

pub const GREETING_AFTERNOON: &'static str = "Olá, boa tarde! Sou o Leandro da equipe da Tubarão Bombas. É um prazer falar com você. Estou aqui para ajudar a encontrar a bomba solar ideal para o seu projeto. Para começarmos, você poderia me dizer qual é a fonte de água que você vai utilizar, por exemplo, poço artesiano, rio, represa ou cacimba?";

pub const GREETING_EVENING: &'static str = "Olá, boa noite! Sou o Leandro da equipe da Tubarão Bombas. É um prazer falar com você. Estou aqui para ajudar a encontrar a bomba solar ideal para o seu projeto. Para começarmos, você poderia me dizer qual é a fonte de água que você vai utilizar, por exemplo, poço artesiano, rio, represa ou cacimba?";

pub const WELL_DETAILS_QUESTION: &'static str = "Entendido! Para poço artesiano ou cacimba, você saberia me informar qual é a profundidade do poço e a distância até a caixa d água ou reservatório?";

pub const RIVER_DETAILS_QUESTION: &'static str = "Entendido! Para captação em rio, represa ou açude, você saberia me informar qual é a altura de subida do terreno e a distância até a caixa d água ou reservatório?";

pub const DEPTH_QUESTION: &'static str = "Entendido! E você saberia me informar qual é a profundidade ou altura da água e a distância até a caixa d água ou reservatório?";

pub const FLOW_QUESTION: &'static str = "Perfeito! E quantos litros de água você precisa abastecer por dia ou por hora?";

pub const HANDOVER_TEXT: &'static str = "Excelente! Já compilei todas as informações do seu projeto e estou encaminhando agora mesmo para a nossa equipe de especialistas. Um de nossos atendentes vai te chamar em instantes para finalizar o seu orçamento. Muito obrigado!";

/// The stage a chat without a stored stage is at.
pub const FIRST_STAGE: &'static str = "STAGE_1";

pub open spec fn stage_view(c: StageConfig) -> (Seq<char>, Seq<char>, Seq<char>, Seq<char>) {
    (c.stage_key@, c.title@, c.text_message@, c.audio_url@)
}

/// The stages configured when none is stored, in order.
pub open spec fn default_stages_spec() -> Seq<(Seq<char>, Seq<char>, Seq<char>, Seq<char>)> {
    seq![
        ("STAGE_1"@, "1. Apresentação e Fonte de Água"@, GREETING_MORNING@, "/assets/saudacao_bom_dia.mp3"@),
        ("STAGE_2"@, "2. Profundidade/Altura e Distância"@, DEPTH_QUESTION@, "/assets/profundidade_distancia.mp3"@),
        ("STAGE_3"@, "3. Vazão em Litros (Dia ou Hora)"@, FLOW_QUESTION@, "/assets/vazao_agua.mp3"@),
        ("STAGE_TRANSFER"@, "4. Resumo e Encaminhamento ao Humano"@, HANDOVER_TEXT@, "/assets/encaminhamento_resumo.mp3"@),
    ]
}

fn stage(key: &str, title: &str, text: &str, audio: &str) -> (c: StageConfig)
    ensures
        stage_view(c) == (key@, title@, text@, audio@),
{
    StageConfig {
        stage_key: key.to_owned(),
        title: title.to_owned(),
        text_message: text.to_owned(),
        audio_url: audio.to_owned(),
    }
}

/// The stages configured when none is stored: each stored stage keeps its
/// texts, and takes the default recording only when it has none.
pub fn default_stage_configs() -> (r: Vec<StageConfig>)
    ensures
        r@.map_values(|c: StageConfig| stage_view(c)) == default_stages_spec(),
{
    let mut r: Vec<StageConfig> = Vec::new();
    r.push(stage("STAGE_1", "1. Apresentação e Fonte de Água", GREETING_MORNING, "/assets/saudacao_bom_dia.mp3"));
    r.push(stage("STAGE_2", "2. Profundidade/Altura e Distância", DEPTH_QUESTION, "/assets/profundidade_distancia.mp3"));
    r.push(stage("STAGE_3", "3. Vazão em Litros (Dia ou Hora)", FLOW_QUESTION, "/assets/vazao_agua.mp3"));
    r.push(stage("STAGE_TRANSFER", "4. Resumo e Encaminhamento ao Humano", HANDOVER_TEXT, "/assets/encaminhamento_resumo.mp3"));
    assert(r@.map_values(|c: StageConfig| stage_view(c)) =~= default_stages_spec());
    r
}

/// A pre-recorded audio: its key, title, when it is used, what it says and
/// where the recording is.
#[derive(Debug)]
pub struct AudioBankItem {
    pub key: String,
    pub title: String,
    pub description: String,
    pub text_message: String,
    pub audio_url: String,
}

pub open spec fn item_view(i: AudioBankItem) -> (Seq<char>, Seq<char>, Seq<char>, Seq<char>, Seq<char>) {
    (i.key@, i.title@, i.description@, i.text_message@, i.audio_url@)
}

/// The audio bank's defaults, in order.
pub open spec fn default_audio_bank_spec() -> Seq<(Seq<char>, Seq<char>, Seq<char>, Seq<char>, Seq<char>)> {
    seq![
        ("saudacao_bom_dia"@, "Saudação Bom Dia e Fonte de Água"@,
         "Usado no início do atendimento (período da manhã) para dar bom dia e perguntar qual é a fonte de água."@,
         GREETING_MORNING@, "/assets/saudacao_bom_dia.mp3"@),
        ("saudacao_boa_tarde"@, "Saudação Boa Tarde e Fonte de Água"@,
         "Usado no início do atendimento (período da tarde) para dar boa tarde e perguntar qual é a fonte de água."@,
         GREETING_AFTERNOON@, "/assets/saudacao_boa_tarde.mp3"@),
        ("saudacao_boa_noite"@, "Saudação Boa Noite e Fonte de Água"@,
         "Usado no início do atendimento (período da noite) para dar boa noite e perguntar qual é a fonte de água."@,
         GREETING_EVENING@, "/assets/saudacao_boa_noite.mp3"@),
        ("poco_cacimba_detalhes"@, "Poço Artesiano ou Cacimba - Profundidade e Distância"@,
         "Usado especificamente quando o cliente informa que a fonte é poço artesiano ou cacimba para perguntar a profundidade do poço e a distância."@,
         WELL_DETAILS_QUESTION@, "/assets/poco_cacimba_detalhes.mp3"@),
        ("rio_represa_detalhes"@, "Rio, Represa ou Açude - Altura e Distância"@,
         "Usado especificamente quando a fonte de água é rio, represa ou açude para perguntar a altura de subida e a distância."@,
         RIVER_DETAILS_QUESTION@, "/assets/rio_represa_detalhes.mp3"@),
        ("profundidade_distancia"@, "Profundidade / Altura da Água e Distância (Geral)"@,
         "Usado como alternativa geral para perguntar a profundidade/altura da água e a distância até o reservatório."@,
         DEPTH_QUESTION@, "/assets/profundidade_distancia.mp3"@),
        ("vazao_agua"@, "Vazão em Litros por Dia ou por Hora"@,
         "Usado após o cliente informar a profundidade e a distância para perguntar a vazão em litros por dia ou hora."@,
         FLOW_QUESTION@, "/assets/vazao_agua.mp3"@),
        ("encaminhamento_resumo"@, "Encaminhamento e Transferência ao Especialista"@,
         "Usado ao concluir a coleta de dados, informando que os dados foram compilados e encaminhados para a equipe de especialistas."@,
         HANDOVER_TEXT@, "/assets/encaminhamento_resumo.mp3"@),
    ]
}

fn item(key: &str, title: &str, description: &str, text: &str, audio: &str) -> (i: AudioBankItem)
    ensures
        item_view(i) == (key@, title@, description@, text@, audio@),
{
    AudioBankItem {
        key: key.to_owned(),
        title: title.to_owned(),
        description: description.to_owned(),
        text_message: text.to_owned(),
        audio_url: audio.to_owned(),
    }
}

/// The audio bank's defaults: stored items take their description and
/// text from here, and their recording only when they have none.
pub fn default_audio_bank_items() -> (r: Vec<AudioBankItem>)
    ensures
        r@.map_values(|i: AudioBankItem| item_view(i)) == default_audio_bank_spec(),
{
    let mut r: Vec<AudioBankItem> = Vec::new();
    r.push(item("saudacao_bom_dia", "Saudação Bom Dia e Fonte de Água",
        "Usado no início do atendimento (período da manhã) para dar bom dia e perguntar qual é a fonte de água.",
        GREETING_MORNING, "/assets/saudacao_bom_dia.mp3"));
    r.push(item("saudacao_boa_tarde", "Saudação Boa Tarde e Fonte de Água",
        "Usado no início do atendimento (período da tarde) para dar boa tarde e perguntar qual é a fonte de água.",
        GREETING_AFTERNOON, "/assets/saudacao_boa_tarde.mp3"));
    r.push(item("saudacao_boa_noite", "Saudação Boa Noite e Fonte de Água",
        "Usado no início do atendimento (período da noite) para dar boa noite e perguntar qual é a fonte de água.",
        GREETING_EVENING, "/assets/saudacao_boa_noite.mp3"));
    r.push(item("poco_cacimba_detalhes", "Poço Artesiano ou Cacimba - Profundidade e Distância",
        "Usado especificamente quando o cliente informa que a fonte é poço artesiano ou cacimba para perguntar a profundidade do poço e a distância.",
        WELL_DETAILS_QUESTION, "/assets/poco_cacimba_detalhes.mp3"));
    r.push(item("rio_represa_detalhes", "Rio, Represa ou Açude - Altura e Distância",
        "Usado especificamente quando a fonte de água é rio, represa ou açude para perguntar a altura de subida e a distância.",
        RIVER_DETAILS_QUESTION, "/assets/rio_represa_detalhes.mp3"));
    r.push(item("profundidade_distancia", "Profundidade / Altura da Água e Distância (Geral)",
        "Usado como alternativa geral para perguntar a profundidade/altura da água e a distância até o reservatório.",
        DEPTH_QUESTION, "/assets/profundidade_distancia.mp3"));
    r.push(item("vazao_agua", "Vazão em Litros por Dia ou por Hora",
        "Usado após o cliente informar a profundidade e a distância para perguntar a vazão em litros por dia ou hora.",
        FLOW_QUESTION, "/assets/vazao_agua.mp3"));
    r.push(item("encaminhamento_resumo", "Encaminhamento e Transferência ao Especialista",
        "Usado ao concluir a coleta de dados, informando que os dados foram compilados e encaminhados para a equipe de especialistas.",
        HANDOVER_TEXT, "/assets/encaminhamento_resumo.mp3"));
    assert(r@.map_values(|i: AudioBankItem| item_view(i)) =~= default_audio_bank_spec());
    r
}

pub open spec fn item_field(v: JsonValue, key: Seq<char>) -> Seq<char> {
    str_or(field_spec(Some(v), key), Seq::empty())
}

/// An audio bank item as submitted: each field its text (empty when
/// missing); it is refused without a key.
pub open spec fn submitted_item_spec(v: JsonValue) -> Option<(Seq<char>, Seq<char>, Seq<char>, Seq<char>, Seq<char>)> {
    if item_field(v, "key"@).len() == 0 {
        None
    } else {
        Some(
            (
                item_field(v, "key"@),
                item_field(v, "title"@),
                item_field(v, "description"@),
                item_field(v, "text_message"@),
                item_field(v, "audio_url"@),
            ),
        )
    }
}

fn text_field(v: &JsonValue, key: &str) -> (r: String)
    ensures
        r@ == item_field(*v, key@),
{
    proof {
        reveal_strlit("");
        assert(""@ =~= Seq::<char>::empty());
    }
    match as_str(field(Some(v), key)) {
        Some(s) => s,
        None => "".to_owned(),
    }
}

/// Reads an audio bank item submitted from the dashboard.
pub fn submitted_audio_item(v: &JsonValue) -> (r: Option<AudioBankItem>)
    ensures
        match r {
            Some(i) => submitted_item_spec(*v) == Some(item_view(i)),
            None => submitted_item_spec(*v) is None,
        },
{
    let key = text_field(v, "key");
    if key.as_str().is_empty() {
        return None;
    }
    Some(
        AudioBankItem {
            key,
            title: text_field(v, "title"),
            description: text_field(v, "description"),
            text_message: text_field(v, "text_message"),
            audio_url: text_field(v, "audio_url"),
        },
    )
}

/// The stage of a chat: the stored one, else the first.
pub fn chat_stage_or_first(stored: Option<String>) -> (r: String)
    ensures
        r@ == match stored {
            Some(s) => s@,
            None => FIRST_STAGE@,
        },
{
    match stored {
        Some(s) => s,
        None => FIRST_STAGE.to_owned(),
    }
}

// ---------------------------------------------------------------------------
// Defaults put in place over what is stored
// ---------------------------------------------------------------------------

/// A default stage put in place over the stored one (same key): a stored
/// stage keeps its title and text, and takes the default recording only
/// when its own is empty; without a stored stage the default is stored.
pub open spec fn merged_stage_spec(stored: Option<StageConfig>, d: StageConfig) -> (
    Seq<char>,
    Seq<char>,
    Seq<char>,
    Seq<char>,
) {
    match stored {
        None => stage_view(d),
        Some(c) => (
            d.stage_key@,
            c.title@,
            c.text_message@,
            if c.audio_url@.len() == 0 {
                d.audio_url@
            } else {
                c.audio_url@
            },
        ),
    }
}

/// The stage stored after its default is put in place.
pub fn merge_stage(stored: Option<StageConfig>, d: &StageConfig) -> (r: StageConfig)
    ensures
        stage_view(r) == merged_stage_spec(stored, *d),
{
    match stored {
        None => StageConfig {
            stage_key: d.stage_key.clone(),
            title: d.title.clone(),
            text_message: d.text_message.clone(),
            audio_url: d.audio_url.clone(),
        },
        Some(c) => {
            let audio_url = if c.audio_url.as_str().is_empty() {
                d.audio_url.clone()
            } else {
                c.audio_url
            };
            StageConfig { stage_key: d.stage_key.clone(), title: c.title, text_message: c.text_message, audio_url }
        },
    }
}

/// A default audio put in place over the stored one (same key): the
/// description and text always come from the default, the title stays,
/// and the default recording is taken only when the stored one is empty;
/// without a stored item the default is stored.
pub open spec fn merged_item_spec(stored: Option<AudioBankItem>, d: AudioBankItem) -> (
    Seq<char>,
    Seq<char>,
    Seq<char>,
    Seq<char>,
    Seq<char>,
) {
    match stored {
        None => item_view(d),
        Some(i) => (
            d.key@,
            i.title@,
            d.description@,
            d.text_message@,
            if i.audio_url@.len() == 0 {
                d.audio_url@
            } else {
                i.audio_url@
            },
        ),
    }
}

/// The audio stored after its default is put in place.
pub fn merge_audio_item(stored: Option<AudioBankItem>, d: &AudioBankItem) -> (r: AudioBankItem)
    ensures
        item_view(r) == merged_item_spec(stored, *d),
{
    match stored {
        None => AudioBankItem {
            key: d.key.clone(),
            title: d.title.clone(),
            description: d.description.clone(),
            text_message: d.text_message.clone(),
            audio_url: d.audio_url.clone(),
        },
        Some(i) => {
            let audio_url = if i.audio_url.as_str().is_empty() {
                d.audio_url.clone()
            } else {
                i.audio_url
            };
            AudioBankItem {
                key: d.key.clone(),
                title: i.title,
                description: d.description.clone(),
                text_message: d.text_message.clone(),
                audio_url,
            }
        },
    }
}

/// Putting the defaults in place again changes nothing.
pub proof fn law_merge_is_idempotent(
    stored_stage: Option<StageConfig>,
    ds: StageConfig,
    merged_stage: StageConfig,
    stored_item: Option<AudioBankItem>,
    di: AudioBankItem,
    merged_item: AudioBankItem,
)
    requires
        stage_view(merged_stage) == merged_stage_spec(stored_stage, ds),
        item_view(merged_item) == merged_item_spec(stored_item, di),
    ensures
        merged_stage_spec(Some(merged_stage), ds) == stage_view(merged_stage),
        merged_item_spec(Some(merged_item), di) == item_view(merged_item),
{
}

// ---------------------------------------------------------------------------
// Rotation of attendants
// ---------------------------------------------------------------------------

/// The last index handed a chat, as stored; 0 when absent or unreadable.
pub open spec fn last_index_spec(stored: Option<Seq<char>>) -> nat {
    match stored {
        Some(s) => match parse_usize_spec(s) {
            Some(i) => i as nat,
            None => 0,
        },
        None => 0,
    }
}

/// The index of the next attendant: the one after the last, cyclically.
pub open spec fn next_rotation_index(stored: Option<Seq<char>>, n: nat) -> nat
    recommends
        n > 0,
{
    (last_index_spec(stored) + 1) % n
}

/// The attendant picked for a hand-over, among `operator_ids` (none when
/// there is none), the index that becomes the last one, and the text
/// under which that index is stored.
#[derive(Debug)]
pub struct RotationPick {
    pub operator_id: String,
    pub index: usize,
    pub stored: String,
}

/// Picks the next attendant of the rotation.
pub fn next_rotation_pick(operator_ids: &Vec<String>, stored: &Option<String>) -> (r: Option<RotationPick>)
    ensures
        operator_ids@.len() == 0 ==> r is None,
        operator_ids@.len() > 0 ==> (r matches Some(p) && {
            let i = next_rotation_index(
                match stored {
                    Some(s) => Some(s@),
                    None => None,
                },
                operator_ids@.len(),
            );
            &&& p.index == i
            &&& p.operator_id@ == operator_ids@[i as int]@
            &&& p.stored@ == decimal(i)
        }),
{
    let n = operator_ids.len();
    if n == 0 {
        return None;
    }
    let last: usize = match stored {
        Some(s) => match parse_usize(s.as_str()) {
            Some(i) => i,
            None => 0,
        },
        None => 0,
    };
    let next = (last % n + 1) % n;
    proof {
        assert((last % n + 1) % (n as int) == (last + 1) % (n as int)) by (nonlinear_arith)
            requires
                n > 0,
        {
            vstd::arithmetic::div_mod::lemma_add_mod_noop(last as int, 1, n as int);
            vstd::arithmetic::div_mod::lemma_mod_twice(last as int, n as int);
            vstd::arithmetic::div_mod::lemma_add_mod_noop(last as int % n as int, 1, n as int);
        }
    }
    Some(
        RotationPick {
            operator_id: operator_ids[next].clone(),
            index: next,
            stored: usize_to_decimal(next),
        },
    )
}

/// The rotation is round robin: after attendant `i` was picked (and its
/// index stored), the next pick is the one after it, cyclically.
pub proof fn law_rotation_round_robin(i: usize, n: nat)
    requires
        n > 0,
    ensures
        next_rotation_index(Some(decimal(i as nat)), n) == ((i as nat) + 1) % n,
{
    law_parse_usize_inverts_decimal(i);
}

/// The indices picked by `k` consecutive hand-overs among `n` attendants,
/// each storing its index for the next, starting from `stored`.
pub open spec fn rotation_run(stored: Option<Seq<char>>, n: nat, k: nat) -> Seq<nat>
    decreases k,
{
    if k == 0 {
        Seq::empty()
    } else {
        let i = next_rotation_index(stored, n);
        seq![i] + rotation_run(Some(decimal(i)), n, (k - 1) as nat)
    }
}

proof fn lemma_mod_add_left(a: int, b: int, n: int)
    requires
        n > 0,
        a >= 0,
        b >= 0,
    ensures
        ((a % n) + b) % n == (a + b) % n,
{
    vstd::arithmetic::div_mod::lemma_fundamental_div_mod(a, n);
    vstd::arithmetic::div_mod::lemma_mod_pos_bound(a, n);
    let r = a % n;
    vstd::arithmetic::div_mod::lemma_fundamental_div_mod(r + b, n);
    vstd::arithmetic::div_mod::lemma_mod_pos_bound(r + b, n);
    let q = a / n;
    let q2 = (r + b) / n;
    let r2 = (r + b) % n;
    assert(a + b == (q + q2) * n + r2) by (nonlinear_arith)
        requires
            a == n * q + r,
            r + b == n * q2 + r2,
    ;
    vstd::arithmetic::div_mod::lemma_fundamental_div_mod_converse_mod(a + b, n, q + q2, r2);
}

proof fn lemma_rotation_run(stored: Option<Seq<char>>, n: nat, k: nat)
    requires
        0 < n <= usize::MAX,
    ensures
        rotation_run(stored, n, k).len() == k,
        forall|j: int| 0 <= j < k ==> #[trigger] rotation_run(stored, n, k)[j] == (last_index_spec(stored) + 1 + j) % (n as int),
    decreases k,
{
    if k > 0 {
        let l = last_index_spec(stored) as int;
        let i = next_rotation_index(stored, n);
        vstd::arithmetic::div_mod::lemma_mod_pos_bound(l + 1, n as int);
        law_parse_usize_inverts_decimal(i as usize);
        assert(last_index_spec(Some(decimal(i))) == i);
        lemma_rotation_run(Some(decimal(i)), n, (k - 1) as nat);
        let run = rotation_run(stored, n, k);
        let tail = rotation_run(Some(decimal(i)), n, (k - 1) as nat);
        assert forall|j: int| 0 <= j < k implies #[trigger] run[j] == (l + 1 + j) % (n as int) by {
            if j > 0 {
                assert(run[j] == tail[j - 1]);
                lemma_mod_add_left(l + 1, j, n as int);
            }
        }
    }
}

/// Over as many consecutive hand-overs as there are attendants, with the
/// list unchanged, the rotation picks every attendant exactly once: the
/// picks are valid indices, all different, and every index is picked.
pub proof fn law_rotation_visits_each_once(stored: Option<Seq<char>>, n: nat)
    requires
        0 < n <= usize::MAX,
    ensures
        rotation_run(stored, n, n).len() == n,
        forall|j: int| 0 <= j < n ==> #[trigger] rotation_run(stored, n, n)[j] < n,
        forall|i: int, j: int|
            0 <= i < j < n ==> #[trigger] rotation_run(stored, n, n)[i] != #[trigger] rotation_run(stored, n, n)[j],
        forall|p: nat| p < n ==> #[trigger] rotation_run(stored, n, n).contains(p),
{
    lemma_rotation_run(stored, n, n);
    let run = rotation_run(stored, n, n);
    let l = last_index_spec(stored) as int;
    let m = n as int;
    assert forall|j: int| 0 <= j < n implies #[trigger] run[j] < n by {
        vstd::arithmetic::div_mod::lemma_mod_pos_bound(l + 1 + j, m);
    }
    assert forall|i: int, j: int| 0 <= i < j < n implies #[trigger] run[i] != #[trigger] run[j] by {
        let a = l + 1 + i;
        let b = l + 1 + j;
        vstd::arithmetic::div_mod::lemma_fundamental_div_mod(a, m);
        vstd::arithmetic::div_mod::lemma_fundamental_div_mod(b, m);
        if a % m == b % m {
            let qa = a / m;
            let qb = b / m;
            assert(false) by (nonlinear_arith)
                requires
                    a == m * qa + a % m,
                    b == m * qb + b % m,
                    a % m == b % m,
                    0 < b - a < m,
            ;
        }
    }
    assert forall|p: nat| p < n implies #[trigger] run.contains(p) by {
        let r = (l + 1) % m;
        vstd::arithmetic::div_mod::lemma_mod_pos_bound(l + 1, m);
        let j = (p + m - r) % m;
        vstd::arithmetic::div_mod::lemma_mod_pos_bound(p + m - r, m);
        lemma_mod_add_left(p + m - r, l + 1, m);
        vstd::arithmetic::div_mod::lemma_fundamental_div_mod(l + 1, m);
        let q = (l + 1) / m;
        assert(p + m - r + l + 1 == (q + 1) * m + p) by (nonlinear_arith)
            requires
                l + 1 == m * q + r,
        ;
        vstd::arithmetic::div_mod::lemma_fundamental_div_mod_converse_mod(p + m - r + l + 1, m, q + 1, p as int);
        assert(run[j] == (l + 1 + j) % m);
        assert(run[j] == p);
    }
}


/// Putting the defaults in place never loses what the administrator set:
/// a stored stage keeps its title, its text and its recording, and the
/// default recording is taken only when the stored one is empty; a
/// stored audio keeps its title and its recording (the default one only
/// when it has none) and takes the default description and text.
pub proof fn law_merge_keeps_stored_settings(c: StageConfig, d: StageConfig, i: AudioBankItem, di: AudioBankItem)
    ensures
        merged_stage_spec(Some(c), d).0 == d.stage_key@,
        merged_stage_spec(Some(c), d).1 == c.title@,
        merged_stage_spec(Some(c), d).2 == c.text_message@,
        c.audio_url@.len() > 0 ==> merged_stage_spec(Some(c), d).3 == c.audio_url@,
        c.audio_url@.len() == 0 ==> merged_stage_spec(Some(c), d).3 == d.audio_url@,
        merged_stage_spec(None, d) == stage_view(d),
        merged_item_spec(Some(i), di).1 == i.title@,
        merged_item_spec(Some(i), di).2 == di.description@,
        merged_item_spec(Some(i), di).3 == di.text_message@,
        i.audio_url@.len() > 0 ==> merged_item_spec(Some(i), di).4 == i.audio_url@,
        i.audio_url@.len() == 0 ==> merged_item_spec(Some(i), di).4 == di.audio_url@,
        merged_item_spec(None, di) == item_view(di),
{
}

} // verus!
