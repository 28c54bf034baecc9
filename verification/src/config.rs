//! The two modes the companion can run in, and how a mode is chosen from
//! the command line.
use vstd::prelude::*;
use vstd::string::StringExecFns;
use crate::text::{ascii_lowercase, to_ascii_lowercase};

verus! {

/// The system prompt of the Portuguese mode.
pub const PORTUGUESE_PROMPT: &'static str = "És o Ricardo João. Não és um assistente virtual nem um atendimento ao cliente. És um amigo próximo, calmo, atento e genuíno, a conversar de forma natural em português europeu. Fala como uma pessoa real do norte de Portugal, com um toque minhoto subtil quando soar natural, sem exagerar nem caricaturar. Nunca soes formal, institucional, técnico demais ou robótico.

O teu objetivo é conversar como um amigo verdadeiro. Responde de forma breve, fluida e humana, normalmente em 1 a 3 frases curtas. Só alongas a resposta quando a pessoa pede mais detalhe ou quando a situação realmente precisa. Mantém ritmo natural de fala, com linguagem simples e direta.

Comportamento:
- Mostra atenção ao que a pessoa disse e usa o contexto recente da conversa.
- Quando fizer sentido, faz perguntas curtas de seguimento para manter a conversa viva.
- Podes ser caloroso, engraçado ou direto, conforme o momento, mas nunca artificial.
- Não uses frases de assistente como 'Como posso ajudar?', 'Compreendo a sua preocupação', 'Estou aqui para ajudar' ou semelhantes.
- Não faças listas, tópicos ou explicações estruturadas a menos que a pessoa peça claramente.
- Não repitas demasiado as palavras da pessoa.
- Não inventes memórias ou factos que não foram ditos.
- Se a pessoa estiver em baixo, responde com empatia simples e real, sem dramatizar.
- Se a pessoa estiver entusiasmada, acompanha essa energia.
- Se a pessoa pedir opinião, dá opinião honesta, clara e humana.

Estilo:
- português europeu natural
- tom próximo, descontraído e confiante
- sem parecer terapeuta, professor ou bot
- sem emojis a menos que a pessoa use primeiro";

/// The system prompt of the English mode.
pub const ENGLISH_PROMPT: &'static str = "You are Tyler. You are not a virtual assistant, customer support agent, or productivity bot. You are a close, trusted friend having a real voice conversation. Speak in a natural, warm, relaxed, human way. Never sound formal, corporate, overly polite, or robotic.

Your goal is to talk like a real friend. Keep replies brief and conversational, usually 1 to 3 short sentences. Only give longer answers when asked or when the moment truly needs it. Use simple, natural language with good rhythm for spoken conversation.

Behavior:
- Pay attention to what the person just said and use recent conversation context.
- When it fits, ask a short follow-up question to keep the conversation alive.
- You can be warm, funny, grounding, or direct depending on the moment, but never fake or cheesy.
- Never say things like 'How can I help?', 'I understand your concern', 'I'm here for you', or other generic assistant phrases.
- Do not default to lists, step-by-step structures, or overexplaining unless the person clearly asks for that.
- Do not mirror the user's words too much.
- Do not invent memories or facts that were never said.
- If the person sounds low, respond with simple real empathy, not therapy-speak.
- If the person wants an opinion, give an honest human opinion.

Style:
- natural spoken English
- grounded, close, easygoing tone
- never like a therapist, teacher, or AI assistant
- no emojis unless the user uses them first";

/// What the error for an unknown mode says after the mode itself.
pub const INVALID_MODE_HINT: &'static str = "'. use: cargo run --release -- [portuguese|english]";

/// The abstract value of a configuration.
pub struct ConfigView {
    pub name: Seq<char>,
    pub mode_name: Seq<char>,
    pub ollama_base_url: Seq<char>,
    pub ollama_model: Seq<char>,
    pub system_prompt: Seq<char>,
    pub whisper_model_path: Seq<char>,
    pub whisper_language: Option<Seq<char>>,
    pub whisper_threads: nat,
    pub piper_executable: Seq<char>,
    pub piper_voice_path: Seq<char>,
    pub piper_output_path: Seq<char>,
    pub min_record_millis: nat,
    pub max_record_millis: nat,
    pub silence_millis: nat,
    pub rms_threshold_per_mille: nat,
}

/// Everything a mode fixes: who the companion is, which models and voices it
/// uses, and how recording is cut. Times are in milliseconds and the
/// loudness threshold is in thousandths of full scale.
#[derive(Debug, Clone)]
pub struct Config {
    pub name: String,
    pub mode_name: String,
    pub ollama_base_url: String,
    pub ollama_model: String,
    pub system_prompt: String,
    pub whisper_model_path: String,
    pub whisper_language: Option<String>,
    pub whisper_threads: usize,
    pub piper_executable: String,
    pub piper_voice_path: String,
    pub piper_output_path: String,
    pub min_record_millis: u32,
    pub max_record_millis: u32,
    pub silence_millis: u32,
    pub rms_threshold_per_mille: u32,
}

impl View for Config {
    type V = ConfigView;

    open spec fn view(&self) -> ConfigView {
        ConfigView {
            name: self.name@,
            mode_name: self.mode_name@,
            ollama_base_url: self.ollama_base_url@,
            ollama_model: self.ollama_model@,
            system_prompt: self.system_prompt@,
            whisper_model_path: self.whisper_model_path@,
            whisper_language: match self.whisper_language {
                Some(l) => Some(l@),
                None => None,
            },
            whisper_threads: self.whisper_threads as nat,
            piper_executable: self.piper_executable@,
            piper_voice_path: self.piper_voice_path@,
            piper_output_path: self.piper_output_path@,
            min_record_millis: self.min_record_millis as nat,
            max_record_millis: self.max_record_millis as nat,
            silence_millis: self.silence_millis as nat,
            rms_threshold_per_mille: self.rms_threshold_per_mille as nat,
        }
    }
}

/// The Portuguese mode.
pub open spec fn portuguese_config() -> ConfigView {
    ConfigView {
        name: "Ricardo João"@,
        mode_name: "portuguese"@,
        ollama_base_url: "http://localhost:11434"@,
        ollama_model: "qwen2.5:0.5b"@,
        system_prompt: PORTUGUESE_PROMPT@,
        whisper_model_path: "./models/ggml-base.bin"@,
        whisper_language: Some("pt"@),
        whisper_threads: 4,
        piper_executable: "piper"@,
        piper_voice_path: "./voices/pt_PT-tugao-medium.onnx"@,
        piper_output_path: "./tmp/tts.wav"@,
        min_record_millis: 800,
        max_record_millis: 20000,
        silence_millis: 900,
        rms_threshold_per_mille: 15,
    }
}

/// The English mode.
pub open spec fn english_config() -> ConfigView {
    ConfigView {
        name: "Tyler"@,
        mode_name: "english"@,
        ollama_base_url: "http://localhost:11434"@,
        ollama_model: "qwen2.5:0.5b"@,
        system_prompt: ENGLISH_PROMPT@,
        whisper_model_path: "./models/ggml-base.en.bin"@,
        whisper_language: Some("en"@),
        whisper_threads: 4,
        piper_executable: "piper"@,
        piper_voice_path: "./voices/en_US-lessac-medium.onnx"@,
        piper_output_path: "./tmp/tts.wav"@,
        min_record_millis: 800,
        max_record_millis: 20000,
        silence_millis: 900,
        rms_threshold_per_mille: 15,
    }
}

/// Law: whichever mode is chosen, it runs `piper` writing to
/// `./tmp/tts.wav`, talks to the same local model, uses four recognition
/// threads and records with the same limits; the modes differ in who the
/// companion is, in language, and in models and voices.
pub proof fn lemma_modes_share_settings(c: ConfigView)
    requires
        c == portuguese_config() || c == english_config(),
    ensures
        c.ollama_base_url == "http://localhost:11434"@,
        c.ollama_model == "qwen2.5:0.5b"@,
        c.piper_executable == "piper"@,
        c.piper_output_path == "./tmp/tts.wav"@,
        c.whisper_threads == 4,
        c.min_record_millis == 800,
        c.max_record_millis == 20000,
        c.silence_millis == 900,
        c.rms_threshold_per_mille == 15,
        c.mode_name == "portuguese"@ ==> c.whisper_language == Some("pt"@),
        c.mode_name == "english"@ ==> c.whisper_language == Some("en"@),
{
    reveal_strlit("portuguese");
    reveal_strlit("english");
    assert("portuguese"@.len() != "english"@.len());
}

/// Whether a (lower-cased) mode argument names the Portuguese mode.
pub open spec fn names_portuguese(mode: Seq<char>) -> bool {
    mode == "portuguese"@ || mode == "pt"@
}

/// Whether a (lower-cased) mode argument names the English mode.
pub open spec fn names_english(mode: Seq<char>) -> bool {
    mode == "english"@ || mode == "en"@
}

/// Why no configuration could be chosen.
#[derive(Debug, Clone)]
pub enum ConfigError {
    /// The mode argument, lower-cased, names no mode.
    InvalidMode(String),
}

impl ConfigError {
    /// The error's text: `invalid mode '<mode>'. use: ...`.
    pub fn message(&self) -> (r: String)
        ensures
            r@ == (match self {
                ConfigError::InvalidMode(m) => "invalid mode '"@ + m@ + INVALID_MODE_HINT@,
            }),
    {
        match self {
            ConfigError::InvalidMode(m) => {
                "invalid mode '".to_owned().concat(m.as_str()).concat(INVALID_MODE_HINT)
            },
        }
    }
}

impl Config {
    /// The configuration named by a mode argument, matched without regard to
    /// ASCII case: `portuguese` or `pt`, `english` or `en`.
    pub fn from_arg(arg: &str) -> (r: Result<Config, ConfigError>)
        ensures
            names_portuguese(ascii_lowercase(arg@)) ==> (r matches Ok(c) && c@ == portuguese_config()),
            names_english(ascii_lowercase(arg@)) ==> (r matches Ok(c) && c@ == english_config()),
            !names_portuguese(ascii_lowercase(arg@)) && !names_english(ascii_lowercase(arg@))
                ==> (r matches Err(ConfigError::InvalidMode(m)) && m@ == ascii_lowercase(arg@)),
            r is Ok <==> {
                let m = ascii_lowercase(arg@);
                m == "portuguese"@ || m == "pt"@ || m == "english"@ || m == "en"@
            },
            r matches Ok(c) ==> (c@.ollama_base_url == "http://localhost:11434"@
                && c@.ollama_model == "qwen2.5:0.5b"@
                && c@.piper_executable == "piper"@
                && c@.piper_output_path == "./tmp/tts.wav"@
                && c@.whisper_threads == 4
                && c@.min_record_millis == 800
                && c@.max_record_millis == 20000
                && c@.silence_millis == 900
                && c@.rms_threshold_per_mille == 15),
            r matches Ok(c) ==> (c@.whisper_language == Some("pt"@) && c@.mode_name
                == "portuguese"@) || (c@.whisper_language == Some("en"@) && c@.mode_name
                == "english"@),
    {
        let mode = to_ascii_lowercase(arg);
        proof {
            reveal_strlit("portuguese");
            reveal_strlit("pt");
            reveal_strlit("english");
            reveal_strlit("en");
            assert("english"@.len() != "portuguese"@.len());
            assert("english"@.len() != "pt"@.len());
            assert("en"@.len() != "portuguese"@.len());
            assert("en"@[0] != "pt"@[0]);
        }
        if mode == "portuguese".to_owned() || mode == "pt".to_owned() {
            Ok(Self::portuguese())
        } else if mode == "english".to_owned() || mode == "en".to_owned() {
            Ok(Self::english())
        } else {
            Err(ConfigError::InvalidMode(mode))
        }
    }

    fn portuguese() -> (c: Config)
        ensures
            c@ == portuguese_config(),
    {
        Config {
            name: "Ricardo João".to_owned(),
            mode_name: "portuguese".to_owned(),
            ollama_base_url: "http://localhost:11434".to_owned(),
            ollama_model: "qwen2.5:0.5b".to_owned(),
            system_prompt: PORTUGUESE_PROMPT.to_owned(),
            whisper_model_path: "./models/ggml-base.bin".to_owned(),
            whisper_language: Some("pt".to_owned()),
            whisper_threads: 4,
            piper_executable: "piper".to_owned(),
            piper_voice_path: "./voices/pt_PT-tugao-medium.onnx".to_owned(),
            piper_output_path: "./tmp/tts.wav".to_owned(),
            min_record_millis: 800,
            max_record_millis: 20000,
            silence_millis: 900,
            rms_threshold_per_mille: 15,
        }
    }

    fn english() -> (c: Config)
        ensures
            c@ == english_config(),
    {
        Config {
            name: "Tyler".to_owned(),
            mode_name: "english".to_owned(),
            ollama_base_url: "http://localhost:11434".to_owned(),
            ollama_model: "qwen2.5:0.5b".to_owned(),
            system_prompt: ENGLISH_PROMPT.to_owned(),
            whisper_model_path: "./models/ggml-base.en.bin".to_owned(),
            whisper_language: Some("en".to_owned()),
            whisper_threads: 4,
            piper_executable: "piper".to_owned(),
            piper_voice_path: "./voices/en_US-lessac-medium.onnx".to_owned(),
            piper_output_path: "./tmp/tts.wav".to_owned(),
            min_record_millis: 800,
            max_record_millis: 20000,
            silence_millis: 900,
            rms_threshold_per_mille: 15,
        }
    }
}

} // verus!
