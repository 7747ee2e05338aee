pub mod claan;
