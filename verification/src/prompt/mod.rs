//! Chat prompt assembly.
mod assembler;
mod context;

pub use assembler::{
    assemble, assemble_with_markers, assemble_with_template, history_turns,
    lemma_add_history_adds_turn, lemma_assembled_frame, lemma_history_turns_len,
    lemma_prompt_length, lemma_prompt_without_history, qwen_prompt, spec_assemble,
    spec_assemble_in, total_len, PromptTemplate, QwenTemplate,
};
pub use context::{history_texts, PromptContext};
